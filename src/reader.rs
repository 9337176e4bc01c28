use vstd::prelude::*;

use crate::selectors::{texts, ToSelectorArguments};

verus! {

/// The kind of diagnostics data that a snapshot asks for.
#[derive(Debug, Clone, Copy, PartialEq, Eq, Structural)]
pub enum DataType {
    Inspect,
    Lifecycle,
}

/// Which components a snapshot request selects.
#[derive(Debug, PartialEq, Eq)]
pub enum ClientSelectorConfiguration {
    /// Every component.
    SelectAll,
    /// The components that these raw selectors name.
    Selectors(Vec<String>),
}

/// What a reader's configuration holds, with selectors as text.
pub struct ArchiveReaderModel {
    pub selectors: Seq<Seq<char>>,
    pub should_retry: bool,
    pub minimum_schema_count: usize,
    pub timeout_nanos: Option<i64>,
}

/// The configuration of a snapshot reader of the diagnostics archive: the
/// selectors to ask for, whether to ask again while too few schemas come
/// back, how many are enough, and how long to wait.
pub struct ArchiveReader {
    selectors: Vec<String>,
    should_retry: bool,
    minimum_schema_count: usize,
    timeout_nanos: Option<i64>,
}

impl View for ArchiveReader {
    type V = ArchiveReaderModel;

    closed spec fn view(&self) -> ArchiveReaderModel {
        ArchiveReaderModel {
            selectors: texts(self.selectors@),
            should_retry: self.should_retry,
            minimum_schema_count: self.minimum_schema_count,
            timeout_nanos: self.timeout_nanos,
        }
    }
}

/// The selector arguments of each item of `items`, in order.
pub open spec fn all_selector_arguments<S: ToSelectorArguments>(items: Seq<S>) -> Seq<Seq<char>>
    decreases items.len(),
{
    if items.len() == 0 {
        Seq::empty()
    } else {
        all_selector_arguments(items.drop_last()) + items.last().selector_arguments()
    }
}

impl ArchiveReader {
    /// A reader with no selector (everything is selected), that retries
    /// until at least one schema comes back, and never times out.
    pub fn new() -> (r: Self)
        ensures
            r@.selectors == Seq::<Seq<char>>::empty(),
            r@.should_retry,
            r@.minimum_schema_count == 1,
            r@.timeout_nanos is None,
    {
        let r = ArchiveReader {
            timeout_nanos: None,
            selectors: Vec::new(),
            should_retry: true,
            minimum_schema_count: 1,
        };
        assert(r@.selectors =~= Seq::<Seq<char>>::empty());
        r
    }

    /// Asks for one more component tree (or sub-tree).
    pub fn add_selector<S: ToSelectorArguments>(self, selector: S) -> (r: Self)
        ensures
            r@.selectors == self@.selectors + selector.selector_arguments(),
            r@.should_retry == self@.should_retry,
            r@.minimum_schema_count == self@.minimum_schema_count,
            r@.timeout_nanos == self@.timeout_nanos,
    {
        let mut this = self;
        let mut args = selector.to_selector_arguments();
        let ghost added = args@;
        this.selectors.append(&mut args);
        assert(texts(this.selectors@) =~= texts(self.selectors@) + texts(added));
        this
    }

    /// Asks for every tree that `selectors` name, in order.
    pub fn add_selectors<S: ToSelectorArguments>(self, selectors: Vec<S>) -> (r: Self)
        ensures
            r@.selectors == self@.selectors + all_selector_arguments(selectors@),
            r@.should_retry == self@.should_retry,
            r@.minimum_schema_count == self@.minimum_schema_count,
            r@.timeout_nanos == self@.timeout_nanos,
    {
        let mut this = self;
        let mut rest = selectors;
        let ghost all = rest@;
        let ghost mut k: int = 0;
        assert(all.take(0) =~= Seq::<S>::empty());
        assert(this@.selectors =~= self@.selectors + all_selector_arguments(all.take(0)));
        while rest.len() > 0
            invariant
                0 <= k <= all.len(),
                rest@ == all.skip(k),
                this@.selectors == self@.selectors + all_selector_arguments(all.take(k)),
                this@.should_retry == self@.should_retry,
                this@.minimum_schema_count == self@.minimum_schema_count,
                this@.timeout_nanos == self@.timeout_nanos,
            decreases rest@.len(),
        {
            let item = rest.remove(0);
            proof {
                assert(item == all[k]);
                assert(all.take(k + 1).drop_last() =~= all.take(k));
                assert(rest@ =~= all.skip(k + 1));
                k = k + 1;
            }
            this = this.add_selector(item);
        }
        assert(all.take(k) =~= all);
        this
    }

    /// Whether to ask again when a snapshot comes back empty.
    pub fn retry_if_empty(self, retry: bool) -> (r: Self)
        ensures
            r@.selectors == self@.selectors,
            r@.should_retry == retry,
            r@.minimum_schema_count == self@.minimum_schema_count,
            r@.timeout_nanos == self@.timeout_nanos,
    {
        let mut this = self;
        this.should_retry = retry;
        this
    }

    /// The longest time, in nanoseconds, to wait for the archive.
    pub fn with_timeout(self, nanos: i64) -> (r: Self)
        ensures
            r@.selectors == self@.selectors,
            r@.should_retry == self@.should_retry,
            r@.minimum_schema_count == self@.minimum_schema_count,
            r@.timeout_nanos == Some(nanos),
    {
        let mut this = self;
        this.timeout_nanos = Some(nanos);
        this
    }

    /// How many schemas a snapshot needs for it to count as a success.
    pub fn with_minimum_schema_count(self, minimum_schema_count: usize) -> (r: Self)
        ensures
            r@.selectors == self@.selectors,
            r@.should_retry == self@.should_retry,
            r@.minimum_schema_count == minimum_schema_count,
            r@.timeout_nanos == self@.timeout_nanos,
    {
        let mut this = self;
        this.minimum_schema_count = minimum_schema_count;
        this
    }

    pub fn timeout_nanos(&self) -> (r: Option<i64>)
        ensures
            r == self@.timeout_nanos,
    {
        self.timeout_nanos
    }

    /// Whether a snapshot that brought `received` schemas is to be asked
    /// for again.
    pub fn should_retry_snapshot(&self, received: usize) -> (r: bool)
        ensures
            r == (received < self@.minimum_schema_count && self@.should_retry),
    {
        received < self.minimum_schema_count && self.should_retry
    }

    /// The component selection of a snapshot request: everything when no
    /// selector was added, else the selectors as raw selectors.
    pub fn client_selector_configuration(&self) -> (r: ClientSelectorConfiguration)
        ensures
            self@.selectors.len() == 0 ==> r == ClientSelectorConfiguration::SelectAll,
            self@.selectors.len() > 0 ==> (r matches ClientSelectorConfiguration::Selectors(v)
                && texts(v@) == self@.selectors),
    {
        if self.selectors.len() == 0 {
            return ClientSelectorConfiguration::SelectAll;
        }
        let mut v: Vec<String> = Vec::new();
        let mut i: usize = 0;
        while i < self.selectors.len()
            invariant
                0 <= i <= self.selectors@.len(),
                texts(v@) == texts(self.selectors@).take(i as int),
            decreases self.selectors@.len() - i,
        {
            let ghost before = v@;
            let s = self.selectors[i].clone();
            v.push(s);
            assert(texts(v@) =~= texts(before).push(s@));
            i += 1;
            assert(texts(v@) =~= texts(self.selectors@).take(i as int));
        }
        assert(texts(self.selectors@).take(i as int) =~= texts(self.selectors@));
        ClientSelectorConfiguration::Selectors(v)
    }
}

/// Metadata of an inspect snapshot entry.
pub struct InspectMetadata {
    pub component_url: String,
}

/// Metadata of a lifecycle event entry.
pub struct LifecycleEventMetadata {
    pub component_url: String,
}

/// A kind of diagnostics data that a reader can ask for.
pub trait BatchIteratorType {
    type Metadata;

    spec fn kind() -> DataType;

    spec fn url_of(metadata: &Self::Metadata) -> Seq<char>;

    fn data_type() -> (r: DataType)
        ensures
            r == Self::kind(),
    ;

    fn component_url(metadata: &Self::Metadata) -> (r: &str)
        ensures
            r@ == Self::url_of(metadata),
    ;
}

/// Inspect data.
pub struct Inspect;

impl BatchIteratorType for Inspect {
    type Metadata = InspectMetadata;

    open spec fn kind() -> DataType {
        DataType::Inspect
    }

    open spec fn url_of(metadata: &InspectMetadata) -> Seq<char> {
        metadata.component_url@
    }

    fn data_type() -> (r: DataType) {
        DataType::Inspect
    }

    fn component_url(metadata: &InspectMetadata) -> (r: &str) {
        metadata.component_url.as_str()
    }
}

/// Lifecycle events.
pub struct Lifecycle;

impl BatchIteratorType for Lifecycle {
    type Metadata = LifecycleEventMetadata;

    open spec fn kind() -> DataType {
        DataType::Lifecycle
    }

    open spec fn url_of(metadata: &LifecycleEventMetadata) -> Seq<char> {
        metadata.component_url@
    }

    fn data_type() -> (r: DataType) {
        DataType::Lifecycle
    }

    fn component_url(metadata: &LifecycleEventMetadata) -> (r: &str) {
        metadata.component_url.as_str()
    }
}

} // verus!
