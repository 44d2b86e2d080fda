//! Span tags: typed key/value metadata attached to a span, and the
//! mathematical model of how a span records a sequence of attachments.

use vstd::prelude::*;

verus! {

/// A typed value carried by a span tag.
#[derive(Clone, Debug, PartialEq, Eq)]
pub enum TagValue {
    Text(String),
    Boolean(bool),
    Integer(i64),
}

/// A key/value pair attached to a span for later querying and filtering.
#[derive(Clone, Debug, PartialEq, Eq)]
pub struct SpanTag {
    pub key: String,
    pub value: TagValue,
}

/// The tags of `tags` whose key differs from `k`, in their original order.
pub open spec fn remove_key(tags: Seq<SpanTag>, k: Seq<char>) -> Seq<SpanTag>
    decreases tags.len(),
{
    if tags.len() == 0 {
        Seq::empty()
    } else if tags.last().key@ == k {
        remove_key(tags.drop_last(), k)
    } else {
        remove_key(tags.drop_last(), k).push(tags.last())
    }
}

/// The recorded tag list after one more tag `t` is attached to a span that
/// already recorded `tags`: any earlier tag under the same key is superseded,
/// and `t` itself comes last.
pub open spec fn attach(tags: Seq<SpanTag>, t: SpanTag) -> Seq<SpanTag> {
    remove_key(tags, t.key@).push(t)
}

/// The recorded tag list after each tag of `tags` is attached in order to a
/// span that already recorded `base`.
pub open spec fn attach_seq(base: Seq<SpanTag>, tags: Seq<SpanTag>) -> Seq<SpanTag>
    decreases tags.len(),
{
    if tags.len() == 0 {
        base
    } else {
        attach(attach_seq(base, tags.drop_last()), tags.last())
    }
}

/// The recorded tag list of a span that started with no tags and had each tag
/// of `tags` attached in order.
pub open spec fn attach_all(tags: Seq<SpanTag>) -> Seq<SpanTag> {
    attach_seq(Seq::empty(), tags)
}

/// No two tags of `tags` share a key.
pub open spec fn keys_distinct(tags: Seq<SpanTag>) -> bool {
    forall|i: int, j: int| 0 <= i < j < tags.len() ==> tags[i].key@ != tags[j].key@
}

proof fn lemma_remove_key_absent(tags: Seq<SpanTag>, k: Seq<char>)
    requires
        forall|i: int| 0 <= i < tags.len() ==> tags[i].key@ != k,
    ensures
        remove_key(tags, k) == tags,
    decreases tags.len(),
{
    if tags.len() == 0 {
        assert(remove_key(tags, k) =~= tags);
    } else {
        lemma_remove_key_absent(tags.drop_last(), k);
        assert(tags.last().key@ != k);
        assert(remove_key(tags, k) =~= tags);
    }
}

/// Law: a sequence of tags with pairwise distinct keys is recorded exactly as
/// attached — same tags, same order, none dropped.
pub proof fn lemma_attach_all_order_kept(tags: Seq<SpanTag>)
    requires
        keys_distinct(tags),
    ensures
        attach_all(tags) == tags,
{
    lemma_attach_seq_order_kept(Seq::empty(), tags);
    assert(Seq::<SpanTag>::empty() + tags =~= tags);
}

/// Attaching tags with pairwise distinct keys, none of which occurs in `base`,
/// appends them to `base` in attachment order.
proof fn lemma_attach_seq_order_kept(base: Seq<SpanTag>, tags: Seq<SpanTag>)
    requires
        keys_distinct(tags),
        forall|i: int, j: int|
            0 <= i < base.len() && 0 <= j < tags.len() ==> base[i].key@ != tags[j].key@,
    ensures
        attach_seq(base, tags) == base + tags,
    decreases tags.len(),
{
    if tags.len() == 0 {
        assert(attach_seq(base, tags) =~= base + tags);
    } else {
        let front = tags.drop_last();
        let t = tags.last();
        lemma_attach_seq_order_kept(base, front);
        assert(forall|i: int| 0 <= i < (base + front).len() ==> #[trigger] (base
            + front)[i].key@ != t.key@);
        lemma_remove_key_absent(base + front, t.key@);
        assert(attach_seq(base, tags) =~= base + tags);
    }
}

} // verus!
