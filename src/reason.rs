use vstd::prelude::*;

verus! {

/// The mathematical model of an [`UnsafeReason`]: every annotation as a
/// sequence of characters, in the order in which it was added.
pub struct ReasonView {
    pub id: Seq<char>,
    pub owners: Seq<Seq<char>>,
    pub bugs: Seq<Seq<char>>,
    pub links: Seq<Seq<char>>,
    /// Key-value pairs; a key may occur more than once.
    pub tags: Seq<(Seq<char>, Seq<char>)>,
    pub messages: Seq<Seq<char>>,
}

impl ReasonView {
    /// A record with the given identifier and no annotations.
    pub open spec fn new(id: Seq<char>) -> ReasonView {
        ReasonView {
            id,
            owners: Seq::empty(),
            bugs: Seq::empty(),
            links: Seq::empty(),
            tags: Seq::empty(),
            messages: Seq::empty(),
        }
    }

    /// True when the record carries no annotation besides its identifier.
    pub open spec fn is_bare(self) -> bool {
        &&& self.owners.len() == 0
        &&& self.bugs.len() == 0
        &&& self.links.len() == 0
        &&& self.tags.len() == 0
        &&& self.messages.len() == 0
    }

    pub open spec fn with_owner(self, owner: Seq<char>) -> ReasonView {
        ReasonView { owners: self.owners.push(owner), ..self }
    }

    pub open spec fn with_bug(self, bug: Seq<char>) -> ReasonView {
        ReasonView { bugs: self.bugs.push(bug), ..self }
    }

    pub open spec fn with_link(self, url: Seq<char>) -> ReasonView {
        ReasonView { links: self.links.push(url), ..self }
    }

    pub open spec fn with_tag(self, key: Seq<char>, value: Seq<char>) -> ReasonView {
        ReasonView { tags: self.tags.push((key, value)), ..self }
    }

    pub open spec fn with_message(self, message: Seq<char>) -> ReasonView {
        ReasonView { messages: self.messages.push(message), ..self }
    }
}

/// The views of a sequence of string slices.
pub open spec fn str_views(s: Seq<&str>) -> Seq<Seq<char>> {
    s.map_values(|x: &str| x@)
}

/// The views of a sequence of key-value pairs of string slices.
pub open spec fn pair_views(s: Seq<(&str, &str)>) -> Seq<(Seq<char>, Seq<char>)> {
    s.map_values(|p: (&str, &str)| (p.0@, p.1@))
}

/// Why a region of code performs operations that the language cannot check.
///
/// The record has no effect on the code it describes; it exists so that
/// readers and auditing tools can find out why the code is there and who
/// answers for it.
pub struct UnsafeReason {
    id: &'static str,
    owners: Vec<&'static str>,
    bugs: Vec<&'static str>,
    links: Vec<&'static str>,
    tags: Vec<(&'static str, &'static str)>,
    messages: Vec<&'static str>,
}

impl View for UnsafeReason {
    type V = ReasonView;

    closed spec fn view(&self) -> ReasonView {
        ReasonView {
            id: self.id@,
            owners: str_views(self.owners@),
            bugs: str_views(self.bugs@),
            links: str_views(self.links@),
            tags: pair_views(self.tags@),
            messages: str_views(self.messages@),
        }
    }
}

impl UnsafeReason {
    /// Starts a new record, given the reason's identifier.
    pub fn new(reason_id: &'static str) -> (r: Self)
        ensures
            r@ == ReasonView::new(reason_id@),
    {
        let r = UnsafeReason {
            id: reason_id,
            owners: Vec::new(),
            bugs: Vec::new(),
            links: Vec::new(),
            tags: Vec::new(),
            messages: Vec::new(),
        };
        assert(str_views(r.owners@) =~= Seq::empty());
        assert(str_views(r.bugs@) =~= Seq::empty());
        assert(str_views(r.links@) =~= Seq::empty());
        assert(pair_views(r.tags@) =~= Seq::empty());
        assert(str_views(r.messages@) =~= Seq::empty());
        r
    }

    /// Adds a bug reference: a plain identifier such as `42`, or more often a
    /// URL in a bug tracker.
    pub fn bug(self, bug_id: &'static str) -> (r: Self)
        ensures
            r@ == self@.with_bug(bug_id@),
    {
        let mut r = self;
        r.bugs.push(bug_id);
        assert(str_views(r.bugs@) =~= str_views(self.bugs@).push(bug_id@));
        r
    }

    /// Adds a message to the reader. Unlike a comment, auditing tools see it.
    pub fn message(self, message: &'static str) -> (r: Self)
        ensures
            r@ == self@.with_message(message@),
    {
        let mut r = self;
        r.messages.push(message);
        assert(str_views(r.messages@) =~= str_views(self.messages@).push(message@));
        r
    }

    /// Adds the name, user id or email address of an accountable person.
    pub fn owner(self, owner: &'static str) -> (r: Self)
        ensures
            r@ == self@.with_owner(owner@),
    {
        let mut r = self;
        r.owners.push(owner);
        assert(str_views(r.owners@) =~= str_views(self.owners@).push(owner@));
        r
    }

    /// Adds a link (URL) to a relevant document, such as a design document.
    pub fn link(self, url: &'static str) -> (r: Self)
        ensures
            r@ == self@.with_link(url@),
    {
        let mut r = self;
        r.links.push(url);
        assert(str_views(r.links@) =~= str_views(self.links@).push(url@));
        r
    }

    /// Adds an arbitrary key-value pair. Earlier pairs with the same key stay.
    pub fn tag(self, tag: &'static str, value: &'static str) -> (r: Self)
        ensures
            r@ == self@.with_tag(tag@, value@),
    {
        let mut r = self;
        r.tags.push((tag, value));
        assert(pair_views(r.tags@) =~= pair_views(self.tags@).push((tag@, value@)));
        r
    }

    /// The reason's identifier.
    pub fn id(&self) -> (r: &'static str)
        ensures
            r@ == self@.id,
    {
        self.id
    }

    /// The owners, in the order in which they were added.
    pub fn owners(&self) -> (r: &[&'static str])
        ensures
            str_views(r@) == self@.owners,
    {
        self.owners.as_slice()
    }

    /// The bug references, in the order in which they were added.
    pub fn bugs(&self) -> (r: &[&'static str])
        ensures
            str_views(r@) == self@.bugs,
    {
        self.bugs.as_slice()
    }

    /// The links, in the order in which they were added.
    pub fn links(&self) -> (r: &[&'static str])
        ensures
            str_views(r@) == self@.links,
    {
        self.links.as_slice()
    }

    /// The key-value tags, in the order in which they were added.
    pub fn tags(&self) -> (r: &[(&'static str, &'static str)])
        ensures
            pair_views(r@) == self@.tags,
    {
        self.tags.as_slice()
    }

    /// The messages, in the order in which they were added.
    pub fn messages(&self) -> (r: &[&'static str])
        ensures
            str_views(r@) == self@.messages,
    {
        self.messages.as_slice()
    }
}

/// A copy of a list of string slices, element by element.
fn copy_strs(v: &Vec<&'static str>) -> (r: Vec<&'static str>)
    ensures
        r@ == v@,
{
    let mut r: Vec<&'static str> = Vec::new();
    let mut i: usize = 0;
    while i < v.len()
        invariant
            i <= v@.len(),
            r@ == v@.subrange(0, i as int),
        decreases v@.len() - i,
    {
        r.push(v[i]);
        i = i + 1;
    }
    assert(v@.subrange(0, v@.len() as int) =~= v@);
    r
}

/// A copy of a list of key-value pairs, element by element.
fn copy_pairs(v: &Vec<(&'static str, &'static str)>) -> (r: Vec<(&'static str, &'static str)>)
    ensures
        r@ == v@,
{
    let mut r: Vec<(&'static str, &'static str)> = Vec::new();
    let mut i: usize = 0;
    while i < v.len()
        invariant
            i <= v@.len(),
            r@ == v@.subrange(0, i as int),
        decreases v@.len() - i,
    {
        let (key, value) = v[i];
        r.push((key, value));
        i = i + 1;
    }
    assert(v@.subrange(0, v@.len() as int) =~= v@);
    r
}

impl Clone for UnsafeReason {
    /// An independent record with the same annotations.
    fn clone(&self) -> (r: Self)
        ensures
            r@ == self@,
    {
        UnsafeReason {
            id: self.id,
            owners: copy_strs(&self.owners),
            bugs: copy_strs(&self.bugs),
            links: copy_strs(&self.links),
            tags: copy_pairs(&self.tags),
            messages: copy_strs(&self.messages),
        }
    }
}

} // verus!
