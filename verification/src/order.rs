use vstd::prelude::*;

verus! {

/// The result of comparing two values.
#[derive(Clone, Copy, Debug, PartialEq, Eq, Structural)]
pub enum Order {
    Less,
    Equal,
    Greater,
}

/// The comparison with its two sides swapped.
pub open spec fn flip(o: Order) -> Order {
    match o {
        Order::Less => Order::Greater,
        Order::Equal => Order::Equal,
        Order::Greater => Order::Less,
    }
}

impl Order {
    /// The order with its two sides swapped.
    pub fn reverse(self) -> (r: Order)
        ensures
            r == flip(self),
    {
        match self {
            Order::Less => Order::Greater,
            Order::Equal => Order::Equal,
            Order::Greater => Order::Less,
        }
    }
}

/// Comparison of two mathematical integers.
pub open spec fn int_order(a: int, b: int) -> Order {
    if a < b {
        Order::Less
    } else if a == b {
        Order::Equal
    } else {
        Order::Greater
    }
}

/// Comparison of two booleans, `false` before `true`.
pub open spec fn bool_order(a: bool, b: bool) -> Order {
    if a == b {
        Order::Equal
    } else if !a {
        Order::Less
    } else {
        Order::Greater
    }
}

/// Lexicographic comparison of two character sequences, by code point;
/// a proper prefix comes first.
pub open spec fn lex_order(a: Seq<char>, b: Seq<char>) -> Order
    decreases a.len(),
{
    if a.len() == 0 {
        if b.len() == 0 {
            Order::Equal
        } else {
            Order::Less
        }
    } else if b.len() == 0 {
        Order::Greater
    } else if (a[0] as int) < (b[0] as int) {
        Order::Less
    } else if (a[0] as int) > (b[0] as int) {
        Order::Greater
    } else {
        lex_order(a.drop_first(), b.drop_first())
    }
}

/// Swapping the sides of a lexicographic comparison flips its result.
pub proof fn lemma_lex_flip(a: Seq<char>, b: Seq<char>)
    ensures
        lex_order(b, a) == flip(lex_order(a, b)),
    decreases a.len(),
{
    if a.len() > 0 && b.len() > 0 && a[0] as int == b[0] as int {
        lemma_lex_flip(a.drop_first(), b.drop_first());
    }
}

/// A lexicographic comparison is `Equal` exactly on equal sequences.
pub proof fn lemma_lex_equal(a: Seq<char>, b: Seq<char>)
    ensures
        lex_order(a, b) == Order::Equal <==> a == b,
    decreases a.len(),
{
    if a.len() > 0 && b.len() > 0 && a[0] as int == b[0] as int {
        lemma_lex_equal(a.drop_first(), b.drop_first());
        if a.drop_first() == b.drop_first() {
            assert(a[0] == b[0]);
            assert(a =~= seq![a[0]] + a.drop_first());
            assert(b =~= seq![b[0]] + b.drop_first());
        }
        if a == b {
            assert(a.drop_first() =~= b.drop_first());
        }
    } else if a.len() == 0 && b.len() == 0 {
        assert(a =~= b);
    } else if a.len() > 0 && b.len() > 0 {
        assert(a[0] != b[0]);
    }
}

/// Lexicographic comparison is transitive: `a <= b <= c` gives `a <= c`,
/// and the result is strict when either step is.
pub proof fn lemma_lex_trans(a: Seq<char>, b: Seq<char>, c: Seq<char>)
    requires
        lex_order(a, b) != Order::Greater,
        lex_order(b, c) != Order::Greater,
    ensures
        lex_order(a, c) != Order::Greater,
        (lex_order(a, b) == Order::Less || lex_order(b, c) == Order::Less) ==> lex_order(a, c)
            == Order::Less,
    decreases a.len(),
{
    if a.len() > 0 && b.len() > 0 && c.len() > 0 && a[0] as int == b[0] as int && b[0] as int
        == c[0] as int {
        lemma_lex_trans(a.drop_first(), b.drop_first(), c.drop_first());
    }
}

/// Compares two strings lexicographically by character.
pub fn compare_str(a: &str, b: &str) -> (r: Order)
    ensures
        r == lex_order(a@, b@),
{
    let la = a.unicode_len();
    let lb = b.unicode_len();
    let mut i: usize = 0;
    assert(a@.skip(0) =~= a@);
    assert(b@.skip(0) =~= b@);
    while i < la && i < lb
        invariant
            la == a@.len(),
            lb == b@.len(),
            i <= la,
            i <= lb,
            lex_order(a@, b@) == lex_order(a@.skip(i as int), b@.skip(i as int)),
        decreases la - i,
    {
        let ca = a.get_char(i);
        let cb = b.get_char(i);
        assert(a@.skip(i as int)[0] == ca);
        assert(b@.skip(i as int)[0] == cb);
        if (ca as u32) < (cb as u32) {
            return Order::Less;
        } else if (ca as u32) > (cb as u32) {
            return Order::Greater;
        }
        assert(a@.skip(i as int).drop_first() =~= a@.skip(i + 1));
        assert(b@.skip(i as int).drop_first() =~= b@.skip(i + 1));
        i = i + 1;
    }
    if i < la {
        Order::Greater
    } else if i < lb {
        Order::Less
    } else {
        Order::Equal
    }
}

} // verus!
