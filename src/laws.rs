use vstd::prelude::*;

use crate::api::{joined, origin, url_of, Segment};
use crate::segment::{collection_path, decimal, nat_digits, query_name, CollectionType, QueryType};

verus! {

/// Joining two runs of steps joins their fragments.
pub proof fn lemma_joined_append(a: Seq<Segment>, b: Seq<Segment>)
    ensures
        joined(a + b) == joined(a) + joined(b),
    decreases b.len(),
{
    if b.len() == 0 {
        assert(a + b == a);
        assert(joined(a) + joined(b) == joined(a));
    } else {
        lemma_joined_append(a, b.drop_last());
        assert((a + b).drop_last() == a + b.drop_last());
        assert((a + b).last() == b.last());
    }
}

/// A finalized URL is the fixed origin followed by the fragment of every step
/// in call order, with nothing between them: for each step, the URL is the
/// origin, the fragments of the steps before it, its own fragment, and the
/// fragments of the steps after it.
pub proof fn lemma_url_in_call_order(segs: Seq<Segment>)
    ensures
        url_of(segs).subrange(0, origin().len() as int) == origin(),
        forall|i: int|
            0 <= i < segs.len() ==> #[trigger] url_of(segs) == origin() + joined(segs.take(i))
                + segs[i].fragment() + joined(segs.skip(i + 1)),
{
    assert forall|i: int| 0 <= i < segs.len() implies #[trigger] url_of(segs) == origin() + joined(
        segs.take(i),
    ) + segs[i].fragment() + joined(segs.skip(i + 1)) by {
        let before = segs.take(i);
        let at = seq![segs[i]];
        let after = segs.skip(i + 1);
        assert(segs == before + at + after);
        lemma_joined_append(before + at, after);
        lemma_joined_append(before, at);
        assert(at.drop_last() == Seq::<Segment>::empty());
        assert(joined(Seq::<Segment>::empty()) == Seq::<char>::empty());
        assert(joined(at) == segs[i].fragment());
    }
}

/// The URL of each chain the request type allows: a collection, then either
/// nothing, an item id, a query, or an item id and a nested collection.
pub proof fn lemma_chain_urls(c: CollectionType, rel: CollectionType, q: QueryType, n: isize)
    ensures
        url_of(seq![Segment::Initialized, Segment::Resource(c)]) == origin() + collection_path(c),
        url_of(seq![Segment::Initialized, Segment::Resource(c), Segment::Id(n)]) == origin()
            + collection_path(c) + seq!['/'] + decimal(n as int),
        url_of(seq![Segment::Initialized, Segment::Resource(c), Segment::Query(q, n)]) == origin()
            + collection_path(c) + seq!['?'] + query_name(q) + seq!['='] + decimal(n as int),
        url_of(
            seq![Segment::Initialized, Segment::Resource(c), Segment::Id(n), Segment::Relation(rel)],
        ) == origin() + collection_path(c) + seq!['/'] + decimal(n as int) + collection_path(rel),
{
    let s1 = seq![Segment::Initialized];
    let s2 = seq![Segment::Initialized, Segment::Resource(c)];
    let s3 = seq![Segment::Initialized, Segment::Resource(c), Segment::Id(n)];
    let s3q = seq![Segment::Initialized, Segment::Resource(c), Segment::Query(q, n)];
    let s4 = seq![Segment::Initialized, Segment::Resource(c), Segment::Id(n), Segment::Relation(rel)];
    assert(s1.drop_last() == Seq::<Segment>::empty());
    assert(joined(Seq::<Segment>::empty()) == Seq::<char>::empty());
    assert(s2.drop_last() == s1);
    assert(s3.drop_last() == s2);
    assert(s3q.drop_last() == s2);
    assert(s4.drop_last() == s3);
    assert(joined(s1) == Seq::<char>::empty());
    assert(joined(s2) == collection_path(c));
    assert(joined(s3) == collection_path(c) + seq!['/'] + decimal(n as int));
    assert(joined(s4) == collection_path(c) + seq!['/'] + decimal(n as int) + collection_path(rel));
}

/// A negative id is rendered with a leading `-` and is not rejected, in an
/// item path and in a query alike.
pub proof fn lemma_negative_id_rendering(q: QueryType, n: isize)
    requires
        n < 0,
    ensures
        Segment::Id(n).fragment() == seq!['/', '-'] + nat_digits((-n) as nat),
        Segment::Query(q, n).fragment() == seq!['?'] + query_name(q) + seq!['=', '-']
            + nat_digits((-n) as nat),
{
    assert(seq!['/'] + (seq!['-'] + nat_digits((-n) as nat)) == seq!['/', '-'] + nat_digits(
        (-n) as nat,
    ));
    assert(seq!['?'] + query_name(q) + seq!['='] + (seq!['-'] + nat_digits((-n) as nat))
        == seq!['?'] + query_name(q) + seq!['=', '-'] + nat_digits((-n) as nat));
}

} // verus!
