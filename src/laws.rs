use vstd::prelude::*;

use crate::reason::ReasonView;

verus! {

/// Each builder adds exactly the one annotation it is given, at the end of its
/// own list, and leaves the identifier and every other list as they were.
pub proof fn builder_adds_exactly_one(
    v: ReasonView,
    owner: Seq<char>,
    bug: Seq<char>,
    url: Seq<char>,
    key: Seq<char>,
    value: Seq<char>,
    message: Seq<char>,
)
    ensures
        v.with_owner(owner).owners == v.owners.push(owner),
        v.with_owner(owner) == (ReasonView { owners: v.with_owner(owner).owners, ..v }),
        v.with_bug(bug).bugs == v.bugs.push(bug),
        v.with_bug(bug) == (ReasonView { bugs: v.with_bug(bug).bugs, ..v }),
        v.with_link(url).links == v.links.push(url),
        v.with_link(url) == (ReasonView { links: v.with_link(url).links, ..v }),
        v.with_tag(key, value).tags == v.tags.push((key, value)),
        v.with_tag(key, value) == (ReasonView { tags: v.with_tag(key, value).tags, ..v }),
        v.with_message(message).messages == v.messages.push(message),
        v.with_message(message) == (ReasonView {
            messages: v.with_message(message).messages,
            ..v
        }),
{
}

/// Applying a builder twice keeps both annotations, in the order applied, and
/// no other: `base.owner(a).owner(b)` has the owners of `base`, then `a`, then
/// `b`. The same holds of bugs, links, tags and messages.
pub proof fn builders_accumulate(v: ReasonView, a: Seq<char>, b: Seq<char>, c: Seq<char>)
    ensures
        v.with_owner(a).with_owner(b).owners == v.owners + seq![a, b],
        v.with_bug(a).with_bug(b).bugs == v.bugs + seq![a, b],
        v.with_link(a).with_link(b).links == v.links + seq![a, b],
        v.with_tag(a, b).with_tag(a, c).tags == v.tags + seq![(a, b), (a, c)],
        v.with_message(a).with_message(b).messages == v.messages + seq![a, b],
        v.with_owner(a).with_owner(b).id == v.id,
        v.with_owner(a).with_bug(b).with_link(c).id == v.id,
{
    assert(v.with_owner(a).with_owner(b).owners =~= v.owners + seq![a, b]);
    assert(v.with_bug(a).with_bug(b).bugs =~= v.bugs + seq![a, b]);
    assert(v.with_link(a).with_link(b).links =~= v.links + seq![a, b]);
    assert(v.with_tag(a, b).with_tag(a, c).tags =~= v.tags + seq![(a, b), (a, c)]);
    assert(v.with_message(a).with_message(b).messages =~= v.messages + seq![a, b]);
}

} // verus!
