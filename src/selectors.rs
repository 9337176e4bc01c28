use vstd::prelude::*;

verus! {

/// The character sequences of a list of strings.
pub open spec fn texts(v: Seq<String>) -> Seq<Seq<char>> {
    v.map_values(|s: String| s@)
}

/// `parts` joined with `sep` between each two.
pub open spec fn joined(parts: Seq<Seq<char>>, sep: Seq<char>) -> Seq<char>
    decreases parts.len(),
{
    if parts.len() == 0 {
        Seq::empty()
    } else if parts.len() == 1 {
        parts[0]
    } else {
        joined(parts.drop_last(), sep) + sep + parts.last()
    }
}

/// Relies on `String::push_str`: appends the characters of `tail`.
#[verifier::external_body]
fn push_str(s: &mut String, tail: &str)
    ensures
        final(s)@ == old(s)@ + tail@,
{
    s.push_str(tail)
}

/// A copy of `s` with `tail` appended.
fn concat(s: &str, tail: &str) -> (r: String)
    ensures
        r@ == s@ + tail@,
{
    let mut r = s.to_owned();
    push_str(&mut r, tail);
    r
}

/// What a component selector holds: the moniker's segments and the tree
/// selectors, as text.
pub struct ComponentSelectorModel {
    pub relative_moniker: Seq<Seq<char>>,
    pub tree_selectors: Seq<Seq<char>>,
}

/// An inspect tree selector for a component.
pub struct ComponentSelector {
    relative_moniker: Vec<String>,
    tree_selectors: Vec<String>,
}

impl View for ComponentSelector {
    type V = ComponentSelectorModel;

    closed spec fn view(&self) -> ComponentSelectorModel {
        ComponentSelectorModel {
            relative_moniker: texts(self.relative_moniker@),
            tree_selectors: texts(self.tree_selectors@),
        }
    }
}

/// The moniker as one path: its segments joined by `/`.
pub open spec fn moniker_path(m: ComponentSelectorModel) -> Seq<char> {
    joined(m.relative_moniker, seq!['/'])
}

/// The selector arguments of a component selector: `<path>:root` when it
/// has no tree selector, else `<path>:<tree selector>` for each.
pub open spec fn component_selector_arguments(m: ComponentSelectorModel) -> Seq<Seq<char>> {
    if m.tree_selectors.len() == 0 {
        seq![moniker_path(m) + seq![':', 'r', 'o', 'o', 't']]
    } else {
        m.tree_selectors.map_values(|s: Seq<char>| moniker_path(m) + seq![':'] + s)
    }
}

impl ComponentSelector {
    /// A selector of the whole inspect tree of the component at
    /// `relative_moniker` (the realm path relative to the running
    /// component's realm, then the component's name).
    pub fn new(relative_moniker: Vec<String>) -> (r: Self)
        ensures
            r@.relative_moniker == texts(relative_moniker@),
            r@.tree_selectors == Seq::<Seq<char>>::empty(),
    {
        let r = ComponentSelector { relative_moniker, tree_selectors: Vec::new() };
        assert(r@.tree_selectors =~= Seq::<Seq<char>>::empty());
        r
    }

    /// Adds a selector of a section of the inspect tree.
    pub fn with_tree_selector(self, tree_selector: String) -> (r: Self)
        ensures
            r@.relative_moniker == self@.relative_moniker,
            r@.tree_selectors == self@.tree_selectors.push(tree_selector@),
    {
        let mut this = self;
        this.tree_selectors.push(tree_selector);
        assert(this@.tree_selectors =~= self@.tree_selectors.push(tree_selector@));
        this
    }

    /// The moniker's segments joined by `/`.
    pub fn relative_moniker_str(&self) -> (r: String)
        ensures
            r@ == moniker_path(self@),
    {
        let parts = &self.relative_moniker;
        let mut r = String::new();
        let mut i: usize = 0;
        proof {
            reveal_strlit("/");
        }
        while i < parts.len()
            invariant
                0 <= i <= parts@.len(),
                r@ == joined(texts(parts@).take(i as int), seq!['/']),
                "/"@ == seq!['/'],
            decreases parts@.len() - i,
        {
            let ghost before = texts(parts@).take(i as int);
            if i > 0 {
                push_str(&mut r, "/");
            }
            push_str(&mut r, parts[i].as_str());
            i += 1;
            proof {
                let now = texts(parts@).take(i as int);
                assert(now.drop_last() =~= before);
                if i == 1 {
                    assert(before =~= Seq::<Seq<char>>::empty());
                    assert(r@ =~= now[0]);
                } else {
                    assert(r@ =~= joined(before, seq!['/']) + seq!['/'] + now.last());
                }
            }
        }
        assert(texts(parts@).take(parts@.len() as int) =~= texts(parts@));
        r
    }
}

/// Anything that stands for one or more selector arguments.
pub trait ToSelectorArguments: Sized {
    /// The arguments that `self` stands for.
    spec fn selector_arguments(&self) -> Seq<Seq<char>>;

    fn to_selector_arguments(self) -> (r: Vec<String>)
        ensures
            texts(r@) == self.selector_arguments(),
    ;
}

impl ToSelectorArguments for String {
    open spec fn selector_arguments(&self) -> Seq<Seq<char>> {
        seq![self@]
    }

    fn to_selector_arguments(self) -> (r: Vec<String>) {
        let r = vec![self];
        assert(texts(r@) =~= seq![self@]);
        r
    }
}

impl<'a> ToSelectorArguments for &'a str {
    open spec fn selector_arguments(&self) -> Seq<Seq<char>> {
        seq![(*self)@]
    }

    fn to_selector_arguments(self) -> (r: Vec<String>) {
        let r = vec![self.to_owned()];
        assert(texts(r@) =~= seq![self@]);
        r
    }
}

impl ToSelectorArguments for ComponentSelector {
    open spec fn selector_arguments(&self) -> Seq<Seq<char>> {
        component_selector_arguments(self@)
    }

    fn to_selector_arguments(self) -> (r: Vec<String>) {
        let path = self.relative_moniker_str();
        proof {
            reveal_strlit(":root");
            reveal_strlit(":");
        }
        if self.tree_selectors.len() == 0 {
            let arg = concat(path.as_str(), ":root");
            assert(":root"@ =~= seq![':', 'r', 'o', 'o', 't']);
            assert(self@.tree_selectors.len() == 0);
            let r = vec![arg];
            assert(texts(r@) =~= seq![arg@]);
            assert(texts(r@) =~= component_selector_arguments(self@));
            return r;
        }
        let prefix = concat(path.as_str(), ":");
        let mut r: Vec<String> = Vec::new();
        let mut i: usize = 0;
        while i < self.tree_selectors.len()
            invariant
                0 <= i <= self.tree_selectors@.len(),
                prefix@ == moniker_path(self@) + seq![':'],
                texts(r@) == component_selector_arguments(self@).take(i as int),
                self.tree_selectors@.len() > 0,
            decreases self.tree_selectors@.len() - i,
        {
            let ghost before = r@;
            let arg = concat(prefix.as_str(), self.tree_selectors[i].as_str());
            r.push(arg);
            assert(r@ == before.push(arg));
            assert(texts(r@) =~= texts(before).push(arg@));
            i += 1;
            assert(texts(r@) =~= component_selector_arguments(self@).take(i as int));
        }
        assert(component_selector_arguments(self@).take(i as int) =~= component_selector_arguments(
            self@,
        ));
        r
    }
}

} // verus!
