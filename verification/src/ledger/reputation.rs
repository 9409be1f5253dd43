//! The reputation table as the ledger keeps it, and what its updates add up
//! to.

use vstd::prelude::*;

verus! {

/// The account of one peer.
pub struct Account {
    pub reputation: int,
    pub staked: int,
}

/// The reputation table: the accounts by the peers' identifiers. A peer
/// without an entry has no reputation and has staked nothing.
pub type Book = Map<Seq<char>, Account>;

/// The account of a peer.
pub open spec fn account(book: Book, peer: Seq<char>) -> Account {
    if book.contains_key(peer) {
        book[peer]
    } else {
        Account { reputation: 0, staked: 0 }
    }
}

/// The table after a committed increase of a peer's reputation: the account
/// is read, the amount is added to the reputation, and the account is
/// written back.
pub open spec fn increased(book: Book, peer: Seq<char>, amount: int) -> Book {
    book.insert(
        peer,
        Account {
            reputation: account(book, peer).reputation + amount,
            staked: account(book, peer).staked,
        },
    )
}

/// The table after a committed decrease: an increase by the negated amount.
/// The reputation may become negative.
pub open spec fn decreased(book: Book, peer: Seq<char>, amount: int) -> Book {
    increased(book, peer, -amount)
}

/// Two increases give the same table in either order.
pub proof fn lemma_increases_commute(book: Book, p: Seq<char>, a: int, q: Seq<char>, b: int)
    ensures
        increased(increased(book, p, a), q, b) == increased(increased(book, q, b), p, a),
{
    assert(increased(increased(book, p, a), q, b) =~= increased(increased(book, q, b), p, a));
}

/// An increase of `p` by `a`, an increase of another peer `q` by `b` and a
/// decrease of `p` by `c`, committed one after another in any order, leave
/// `p` with its reputation raised by `a - c` and `q` with its reputation
/// raised by `b`. What either has staked is unchanged.
pub proof fn law_updates_add_up(book: Book, p: Seq<char>, q: Seq<char>, a: int, b: int, c: int)
    requires
        p != q,
    ensures
        ({
            let first = decreased(increased(increased(book, p, a), q, b), p, c);
            &&& account(first, p).reputation == account(book, p).reputation + a - c
            &&& account(first, q).reputation == account(book, q).reputation + b
            &&& account(first, p).staked == account(book, p).staked
            &&& account(first, q).staked == account(book, q).staked
            &&& first == decreased(increased(increased(book, q, b), p, a), p, c)
            &&& first == increased(decreased(increased(book, p, a), p, c), q, b)
            &&& first == increased(decreased(increased(book, q, b), p, c), p, a)
            &&& first == increased(increased(decreased(book, p, c), p, a), q, b)
            &&& first == increased(increased(decreased(book, p, c), q, b), p, a)
        }),
{
    let first = decreased(increased(increased(book, p, a), q, b), p, c);
    assert(first =~= decreased(increased(increased(book, q, b), p, a), p, c));
    assert(first =~= increased(decreased(increased(book, p, a), p, c), q, b));
    assert(first =~= increased(decreased(increased(book, q, b), p, c), p, a));
    assert(first =~= increased(increased(decreased(book, p, c), p, a), q, b));
    assert(first =~= increased(increased(decreased(book, p, c), q, b), p, a));
}

/// Increases of one peer's reputation add up, whatever their order.
pub proof fn law_increases_add_up(book: Book, p: Seq<char>, a: int, b: int)
    ensures
        account(increased(increased(book, p, a), p, b), p).reputation == account(
            book,
            p,
        ).reputation + a + b,
        increased(increased(book, p, a), p, b) == increased(increased(book, p, b), p, a),
{
    lemma_increases_commute(book, p, a, p, b);
}

/// The table after committed increases of one peer's reputation, one after
/// another in the order of the amounts.
pub open spec fn increased_all(book: Book, peer: Seq<char>, amounts: Seq<int>) -> Book
    decreases amounts.len(),
{
    if amounts.len() == 0 {
        book
    } else {
        increased(increased_all(book, peer, amounts.drop_last()), peer, amounts.last())
    }
}

/// The sum of the amounts.
pub open spec fn total(amounts: Seq<int>) -> int
    decreases amounts.len(),
{
    if amounts.len() == 0 {
        0
    } else {
        total(amounts.drop_last()) + amounts.last()
    }
}

/// How often an amount occurs among the amounts.
pub open spec fn occurrences(amounts: Seq<int>, amount: int) -> nat
    decreases amounts.len(),
{
    if amounts.len() == 0 {
        0
    } else {
        occurrences(amounts.drop_last(), amount) + if amounts.last() == amount {
            1nat
        } else {
            0nat
        }
    }
}

/// Increases of one peer's reputation, committed one after another, raise
/// the reputation by the sum of the amounts and keep what is staked.
pub proof fn lemma_increases_sum_up(book: Book, peer: Seq<char>, amounts: Seq<int>)
    ensures
        account(increased_all(book, peer, amounts), peer).reputation == account(
            book,
            peer,
        ).reputation + total(amounts),
        account(increased_all(book, peer, amounts), peer).staked == account(book, peer).staked,
    decreases amounts.len(),
{
    if amounts.len() > 0 {
        lemma_increases_sum_up(book, peer, amounts.drop_last());
    }
}

/// Amounts of two kinds sum up to the first kind times its number plus the
/// second kind times its number.
pub proof fn lemma_total_of_two_kinds(amounts: Seq<int>, a: int, b: int)
    requires
        a != b,
        forall|k: int| 0 <= k < amounts.len() ==> amounts[k] == a || amounts[k] == b,
    ensures
        total(amounts) == a * occurrences(amounts, a) + b * occurrences(amounts, b),
        occurrences(amounts, a) + occurrences(amounts, b) == amounts.len(),
    decreases amounts.len(),
{
    if amounts.len() > 0 {
        let rest = amounts.drop_last();
        assert forall|k: int| 0 <= k < rest.len() implies rest[k] == a || rest[k] == b by {
            assert(rest[k] == amounts[k]);
        }
        lemma_total_of_two_kinds(rest, a, b);
        let m = occurrences(rest, a) as int;
        let n = occurrences(rest, b) as int;
        assert(a * (m + 1) == a * m + a) by (nonlinear_arith);
        assert(b * (n + 1) == b * n + b) by (nonlinear_arith);
    } else {
        assert(a * 0 == 0 && b * 0 == 0) by (nonlinear_arith);
    }
}

/// Increases of one peer's reputation by two amounts, `m` of the one and `n`
/// of the other, committed one after another in whatever order they are
/// interleaved, raise the reputation by `m` times the one plus `n` times the
/// other, and keep what is staked.
pub proof fn law_interleaved_increases_add_up(
    book: Book,
    peer: Seq<char>,
    order: Seq<int>,
    a: int,
    m: nat,
    b: int,
    n: nat,
)
    requires
        a != b,
        forall|k: int| 0 <= k < order.len() ==> order[k] == a || order[k] == b,
        occurrences(order, a) == m,
        occurrences(order, b) == n,
    ensures
        account(increased_all(book, peer, order), peer).reputation == account(
            book,
            peer,
        ).reputation + a * m + b * n,
        account(increased_all(book, peer, order), peer).staked == account(book, peer).staked,
{
    lemma_increases_sum_up(book, peer, order);
    lemma_total_of_two_kinds(order, a, b);
}

/// A hundred increases by five and a hundred by seven, in whatever order
/// they are interleaved, raise the reputation by 1200.
pub proof fn law_two_hundred_increases(book: Book, peer: Seq<char>, order: Seq<int>)
    requires
        forall|k: int| 0 <= k < order.len() ==> order[k] == 5 || order[k] == 7,
        occurrences(order, 5) == 100,
        occurrences(order, 7) == 100,
    ensures
        account(increased_all(book, peer, order), peer).reputation == account(
            book,
            peer,
        ).reputation + 1200,
        account(increased_all(book, peer, order), peer).staked == account(book, peer).staked,
{
    law_interleaved_increases_add_up(book, peer, order, 5, 100, 7, 100);
}

} // verus!
