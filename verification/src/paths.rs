//! The order of paths. A path is given by its components, each as the bytes that the system has
//! for it.
use vstd::prelude::*;

verus! {

/// The bytes of the components of a path.
pub open spec fn component_views(components: Seq<Vec<u8>>) -> Seq<Seq<u8>> {
    Seq::new(components.len(), |i: int| components[i]@)
}

/// `a` comes before `b` in the order of a dictionary: at the first place where they differ it has
/// the smaller byte, or it ends there.
pub open spec fn bytes_less(a: Seq<u8>, b: Seq<u8>) -> bool
    decreases a.len(),
{
    if b.len() == 0 {
        false
    } else if a.len() == 0 {
        true
    } else {
        a[0] < b[0] || (a[0] == b[0] && bytes_less(a.drop_first(), b.drop_first()))
    }
}

/// The path `a` comes before the path `b`: at the first place where they differ it has the component
/// that comes first, or it ends there.
pub open spec fn path_less(a: Seq<Seq<u8>>, b: Seq<Seq<u8>>) -> bool
    decreases a.len(),
{
    if b.len() == 0 {
        false
    } else if a.len() == 0 {
        true
    } else {
        bytes_less(a[0], b[0]) || (a[0] == b[0] && path_less(a.drop_first(), b.drop_first()))
    }
}

proof fn lemma_bytes_order(a: Seq<u8>, b: Seq<u8>)
    ensures
        !bytes_less(a, a),
        !(bytes_less(a, b) && bytes_less(b, a)),
        a == b || bytes_less(a, b) || bytes_less(b, a),
    decreases a.len(),
{
    if a.len() > 0 {
        lemma_bytes_order(a.drop_first(), a.drop_first());
        if b.len() > 0 {
            lemma_bytes_order(a.drop_first(), b.drop_first());
            if a[0] == b[0] && a.drop_first() == b.drop_first() {
                assert(a == seq![a[0]] + a.drop_first());
                assert(b == seq![b[0]] + b.drop_first());
            }
        }
    } else if b.len() == 0 {
        assert(a == b);
    }
}

proof fn lemma_bytes_transitive(a: Seq<u8>, b: Seq<u8>, c: Seq<u8>)
    requires
        bytes_less(a, b),
        bytes_less(b, c),
    ensures
        bytes_less(a, c),
    decreases a.len(),
{
    if a.len() > 0 && a[0] == b[0] && b[0] == c[0] {
        lemma_bytes_transitive(a.drop_first(), b.drop_first(), c.drop_first());
    }
}

/// Of two different paths exactly one comes before the other.
pub proof fn law_paths_are_ordered(a: Seq<Seq<u8>>, b: Seq<Seq<u8>>)
    ensures
        !path_less(a, a),
        !(path_less(a, b) && path_less(b, a)),
        a == b || path_less(a, b) || path_less(b, a),
    decreases a.len(),
{
    if a.len() > 0 {
        lemma_bytes_order(a[0], a[0]);
        law_paths_are_ordered(a.drop_first(), a.drop_first());
        if b.len() > 0 {
            lemma_bytes_order(a[0], b[0]);
            law_paths_are_ordered(a.drop_first(), b.drop_first());
            if a[0] == b[0] && a.drop_first() == b.drop_first() {
                assert(a == seq![a[0]] + a.drop_first());
                assert(b == seq![b[0]] + b.drop_first());
            }
        }
    } else if b.len() == 0 {
        assert(a == b);
    }
}

/// What comes before a path comes before all that follows that path.
pub proof fn law_path_order_is_transitive(a: Seq<Seq<u8>>, b: Seq<Seq<u8>>, c: Seq<Seq<u8>>)
    requires
        path_less(a, b),
        path_less(b, c),
    ensures
        path_less(a, c),
    decreases a.len(),
{
    if a.len() > 0 {
        if bytes_less(a[0], b[0]) && bytes_less(b[0], c[0]) {
            lemma_bytes_transitive(a[0], b[0], c[0]);
        } else if a[0] == b[0] && b[0] == c[0] && !bytes_less(a[0], b[0]) && !bytes_less(
            b[0],
            c[0],
        ) {
            law_path_order_is_transitive(a.drop_first(), b.drop_first(), c.drop_first());
        }
    }
}

/// Whether `a` comes before `b` in the order of a dictionary.
pub fn bytes_before(a: &Vec<u8>, b: &Vec<u8>) -> (r: bool)
    ensures
        r == bytes_less(a@, b@),
{
    let mut i: usize = 0;
    assert(a@.skip(0) == a@ && b@.skip(0) == b@);
    while i < a.len() && i < b.len()
        invariant
            i <= a.len(),
            i <= b.len(),
            bytes_less(a@, b@) == bytes_less(a@.skip(i as int), b@.skip(i as int)),
        decreases a.len() - i,
    {
        assert(a@.skip(i as int).drop_first() == a@.skip(i + 1));
        assert(b@.skip(i as int).drop_first() == b@.skip(i + 1));
        if a[i] != b[i] {
            return a[i] < b[i];
        }
        i = i + 1;
    }
    i < b.len()
}

/// Whether the path `a` comes before the path `b`.
pub fn path_before(a: &Vec<Vec<u8>>, b: &Vec<Vec<u8>>) -> (r: bool)
    ensures
        r == path_less(component_views(a@), component_views(b@)),
{
    let ghost first = component_views(a@);
    let ghost second = component_views(b@);
    let mut i: usize = 0;
    assert(first.skip(0) == first && second.skip(0) == second);
    while i < a.len() && i < b.len()
        invariant
            i <= a.len(),
            i <= b.len(),
            first == component_views(a@),
            second == component_views(b@),
            path_less(first, second) == path_less(first.skip(i as int), second.skip(i as int)),
        decreases a.len() - i,
    {
        proof {
            assert(first.skip(i as int).drop_first() == first.skip(i + 1));
            assert(second.skip(i as int).drop_first() == second.skip(i + 1));
            assert(first.skip(i as int)[0] == a[i as int]@);
            assert(second.skip(i as int)[0] == b[i as int]@);
            lemma_bytes_order(a[i as int]@, b[i as int]@);
            lemma_bytes_order(a[i as int]@, a[i as int]@);
        }
        if bytes_before(&a[i], &b[i]) {
            return true;
        }
        if bytes_before(&b[i], &a[i]) {
            return false;
        }
        i = i + 1;
    }
    i < b.len()
}

} // verus!
