//! Who receives a notice.

use vstd::prelude::*;
use vstd::string::*;
use crate::store::{AdminRow, Subscriber};
use crate::text::{
    lemma_text_lt_irreflexive,
    lemma_text_lt_total,
    lemma_text_lt_transitive,
    precedes,
    text_lt,
};

verus! {

/// Each text of `list` comes before all that follow it: the list is sorted and
/// holds nothing twice.
pub open spec fn ascending(list: Seq<Seq<char>>) -> bool {
    forall|i: int, j: int| 0 <= i < j < list.len() ==> text_lt(list[i], list[j])
}

/// `who` subscribes under one of the policy codes `codes`.
pub open spec fn subscribed(who: Subscriber, codes: Seq<Seq<char>>) -> bool {
    codes.contains(who.subscription_policy@)
}

/// `email` is the address of one of the first `count` rows of `users` that
/// subscribes under `codes`.
pub open spec fn user_address(
    users: Seq<Subscriber>,
    count: int,
    codes: Seq<Seq<char>>,
    email: Seq<char>,
) -> bool {
    exists|i: int| 0 <= i < count && subscribed(#[trigger] users[i], codes) && users[i].email@ == email
}

/// `email` is the address of one of the first `count` rows of `admin` that
/// subscribes under `codes`.
pub open spec fn admin_address(
    admin: Seq<AdminRow>,
    count: int,
    codes: Seq<Seq<char>>,
    email: Seq<char>,
) -> bool {
    exists|i: int|
        0 <= i < count && subscribed((#[trigger] admin[i]).subscriber, codes)
            && admin[i].subscriber.email@ == email
}

/// `email` belongs to someone in `users` or `admin` who subscribes under
/// `codes`.
pub open spec fn is_recipient(
    users: Seq<Subscriber>,
    admin: Seq<AdminRow>,
    codes: Seq<Seq<char>>,
    email: Seq<char>,
) -> bool {
    user_address(users, users.len() as int, codes, email) || admin_address(
        admin,
        admin.len() as int,
        codes,
        email,
    )
}

/// `list` is the recipient list for `codes`: the addresses of all who subscribe
/// under one of the codes, each once, in ascending order.
pub open spec fn is_recipient_list(
    list: Seq<Seq<char>>,
    users: Seq<Subscriber>,
    admin: Seq<AdminRow>,
    codes: Seq<Seq<char>>,
) -> bool {
    &&& ascending(list)
    &&& forall|email: Seq<char>| #[trigger]
        list.contains(email) <==> is_recipient(users, admin, codes, email)
}

/// Two ascending lists that hold the same texts are the same list.
pub proof fn lemma_ascending_unique(a: Seq<Seq<char>>, b: Seq<Seq<char>>)
    requires
        ascending(a),
        ascending(b),
        forall|e: Seq<char>| a.contains(e) <==> b.contains(e),
    ensures
        a == b,
    decreases a.len(),
{
    if a.len() == 0 {
        if b.len() > 0 {
            assert(b.contains(b[0]));
        }
        assert(a =~= b);
    } else {
        assert(a.contains(a[0]));
        assert(b.contains(a[0]));
        assert(b.len() > 0);
        assert(b.contains(b[0]));
        assert(a.contains(b[0]));
        let k = choose|k: int| 0 <= k < a.len() && a[k] == b[0];
        let l = choose|l: int| 0 <= l < b.len() && b[l] == a[0];
        if k > 0 && l > 0 {
            lemma_text_lt_transitive(a[0], b[0], a[0]);
            lemma_text_lt_irreflexive(a[0]);
        }
        assert(a[0] == b[0]);
        let rest_a = a.drop_first();
        let rest_b = b.drop_first();
        assert forall|e: Seq<char>| rest_a.contains(e) <==> rest_b.contains(e) by {
            lemma_text_lt_irreflexive(e);
            if rest_a.contains(e) {
                let i = choose|i: int| 0 <= i < rest_a.len() && rest_a[i] == e;
                assert(a[i + 1] == e);
                assert(a.contains(e));
                let j = choose|j: int| 0 <= j < b.len() && b[j] == e;
                assert(text_lt(a[0], a[i + 1]));
                assert(rest_b[j - 1] == e);
            }
            if rest_b.contains(e) {
                let i = choose|i: int| 0 <= i < rest_b.len() && rest_b[i] == e;
                assert(b[i + 1] == e);
                assert(b.contains(e));
                let j = choose|j: int| 0 <= j < a.len() && a[j] == e;
                assert(text_lt(b[0], b[i + 1]));
                assert(rest_a[j - 1] == e);
            }
        }
        assert forall|i: int, j: int| 0 <= i < j < rest_a.len() implies text_lt(
            rest_a[i],
            rest_a[j],
        ) by {
            assert(text_lt(a[i + 1], a[j + 1]));
        }
        assert forall|i: int, j: int| 0 <= i < j < rest_b.len() implies text_lt(
            rest_b[i],
            rest_b[j],
        ) by {
            assert(text_lt(b[i + 1], b[j + 1]));
        }
        lemma_ascending_unique(rest_a, rest_b);
        assert(a =~= seq![a[0]] + rest_a);
        assert(b =~= seq![b[0]] + rest_b);
    }
}

/// There is one recipient list for given tables and codes: whatever order the
/// rows are read in, the same addresses come out in the same order.
pub proof fn lemma_recipient_list_unique(
    first: Seq<Seq<char>>,
    second: Seq<Seq<char>>,
    users: Seq<Subscriber>,
    admin: Seq<AdminRow>,
    codes: Seq<Seq<char>>,
)
    requires
        is_recipient_list(first, users, admin, codes),
        is_recipient_list(second, users, admin, codes),
    ensures
        first == second,
{
    assert forall|e: Seq<char>| first.contains(e) <==> second.contains(e) by {
        assert(first.contains(e) <==> is_recipient(users, admin, codes, e));
        assert(second.contains(e) <==> is_recipient(users, admin, codes, e));
    }
    lemma_ascending_unique(first, second);
}

/// Whether `code` is one of `codes`.
fn has_code(codes: &Vec<String>, code: &String) -> (r: bool)
    ensures
        r == codes.deep_view().contains(code@),
{
    let n = codes.len();
    let mut i: usize = 0;
    while i < n
        invariant
            i <= n,
            n == codes.len(),
            forall|j: int| 0 <= j < i ==> codes.deep_view()[j] != code@,
        decreases n - i,
    {
        if codes[i] == *code {
            assert(codes.deep_view()[i as int] == code@);
            return true;
        }
        i += 1;
    }
    false
}

/// Puts `email` into the ascending `list`, at its place, unless it is there.
fn insert_ascending(list: &mut Vec<String>, email: &String)
    requires
        ascending(old(list).deep_view()),
    ensures
        ascending(final(list).deep_view()),
        forall|e: Seq<char>| #[trigger]
            final(list).deep_view().contains(e) <==> (old(list).deep_view().contains(e) || e
                == email@),
{
    let ghost before = list.deep_view();
    let n = list.len();
    let mut at: usize = 0;
    let mut scanning = true;
    while scanning && at < n
        invariant
            at <= n,
            n == list.len(),
            list.deep_view() == before,
            forall|k: int| 0 <= k < at ==> text_lt(before[k], email@),
            !scanning ==> at < n && !text_lt(before[at as int], email@),
        decreases n - at + (if scanning { 1int } else { 0int }),
    {
        if precedes(list[at].as_str(), email.as_str()) {
            at += 1;
        } else {
            scanning = false;
        }
    }
    if at < n && list[at] == *email {
        assert(before[at as int] == email@);
        return ;
    }
    list.insert(at, email.clone());
    proof {
        let after = list.deep_view();
        assert(after =~= before.insert(at as int, email@));
        assert forall|j: int| at <= j < n implies text_lt(email@, before[j]) by {
            lemma_text_lt_total(email@, before[at as int]);
            if at < j {
                lemma_text_lt_transitive(email@, before[at as int], before[j]);
            }
        }
        assert forall|i: int, j: int| 0 <= i < j < after.len() implies text_lt(
            after[i],
            after[j],
        ) by {
            if j < at {
            } else if j == at {
            } else if i < at {
                assert(after[j] == before[j - 1]);
                lemma_text_lt_transitive(after[i], email@, after[j]);
            } else if i == at {
                assert(after[j] == before[j - 1]);
            } else {
                assert(after[i] == before[i - 1]);
                assert(after[j] == before[j - 1]);
            }
        }
        assert forall|e: Seq<char>| #[trigger]
            after.contains(e) <==> (before.contains(e) || e == email@) by {
            if after.contains(e) {
                let k = choose|k: int| 0 <= k < after.len() && after[k] == e;
                if k < at {
                    assert(before[k] == e);
                } else if k > at {
                    assert(before[k - 1] == e);
                }
            }
            if before.contains(e) {
                let k = choose|k: int| 0 <= k < before.len() && before[k] == e;
                if k < at {
                    assert(after[k] == e);
                } else {
                    assert(after[k + 1] == e);
                }
            }
            if e == email@ {
                assert(after[at as int] == e);
            }
        }
    }
}

/// The recipient list for the policy codes `codes`: the addresses of all rows
/// of `users` and `admin` whose subscription policy is one of the codes, sorted
/// in ascending order, each address once.
pub fn resolve_recipients(users: &Vec<Subscriber>, admin: &Vec<AdminRow>, codes: &Vec<String>) -> (list: Vec<String>)
    ensures
        is_recipient_list(list.deep_view(), users@, admin@, codes.deep_view()),
{
    let mut list: Vec<String> = Vec::new();
    let ghost wanted = codes.deep_view();
    let n = users.len();
    let mut i: usize = 0;
    while i < n
        invariant
            i <= n,
            n == users.len(),
            wanted == codes.deep_view(),
            ascending(list.deep_view()),
            forall|e: Seq<char>| #[trigger]
                list.deep_view().contains(e) <==> user_address(users@, i as int, wanted, e),
        decreases n - i,
    {
        let ghost before = list.deep_view();
        if has_code(codes, &users[i].subscription_policy) {
            insert_ascending(&mut list, &users[i].email);
        }
        proof {
            let after = list.deep_view();
            assert forall|e: Seq<char>| #[trigger]
                after.contains(e) <==> user_address(users@, i + 1, wanted, e) by {
                assert(before.contains(e) <==> user_address(users@, i as int, wanted, e));
                if user_address(users@, i + 1, wanted, e) {
                    let k = choose|k: int|
                        0 <= k < i + 1 && subscribed(#[trigger] users@[k], wanted) && users@[k].email@
                            == e;
                    if k < i {
                        assert(user_address(users@, i as int, wanted, e));
                    }
                }
                if user_address(users@, i as int, wanted, e) {
                    let k = choose|k: int|
                        0 <= k < i && subscribed(#[trigger] users@[k], wanted) && users@[k].email@
                            == e;
                    assert(0 <= k < i + 1);
                }
                if subscribed(users@[i as int], wanted) && e == users@[i as int].email@ {
                    assert(user_address(users@, i + 1, wanted, e));
                }
            }
        }
        i += 1;
    }
    let m = admin.len();
    let mut i: usize = 0;
    while i < m
        invariant
            i <= m,
            m == admin.len(),
            wanted == codes.deep_view(),
            ascending(list.deep_view()),
            forall|e: Seq<char>| #[trigger]
                list.deep_view().contains(e) <==> (user_address(
                    users@,
                    users@.len() as int,
                    wanted,
                    e,
                ) || admin_address(admin@, i as int, wanted, e)),
        decreases m - i,
    {
        let ghost before = list.deep_view();
        if has_code(codes, &admin[i].subscriber.subscription_policy) {
            insert_ascending(&mut list, &admin[i].subscriber.email);
        }
        proof {
            let after = list.deep_view();
            assert forall|e: Seq<char>| #[trigger]
                after.contains(e) <==> (user_address(users@, users@.len() as int, wanted, e)
                    || admin_address(admin@, i + 1, wanted, e)) by {
                assert(before.contains(e) <==> (user_address(
                    users@,
                    users@.len() as int,
                    wanted,
                    e,
                ) || admin_address(admin@, i as int, wanted, e)));
                if admin_address(admin@, i + 1, wanted, e) {
                    let k = choose|k: int|
                        0 <= k < i + 1 && subscribed((#[trigger] admin@[k]).subscriber, wanted)
                            && admin@[k].subscriber.email@ == e;
                    if k < i {
                        assert(admin_address(admin@, i as int, wanted, e));
                    }
                }
                if admin_address(admin@, i as int, wanted, e) {
                    let k = choose|k: int|
                        0 <= k < i && subscribed((#[trigger] admin@[k]).subscriber, wanted)
                            && admin@[k].subscriber.email@ == e;
                    assert(0 <= k < i + 1);
                }
                if subscribed(admin@[i as int].subscriber, wanted) && e
                    == admin@[i as int].subscriber.email@ {
                    assert(admin_address(admin@, i + 1, wanted, e));
                }
            }
        }
        i += 1;
    }
    list
}

/// The policy codes of those who receive the newsletter and calendar notices:
/// "1", the newsletter, and "2", reminders.
pub open spec fn everyone_codes() -> Seq<Seq<char>> {
    seq!["1"@, "2"@]
}

/// The policy code of those who receive same-day reminders: "2".
pub open spec fn reminder_codes() -> Seq<Seq<char>> {
    seq!["2"@]
}

/// Everyone: the recipient list for the policy codes "1" and "2".
pub fn get_email_list(users: &Vec<Subscriber>, admin: &Vec<AdminRow>) -> (list: Vec<String>)
    ensures
        is_recipient_list(list.deep_view(), users@, admin@, everyone_codes()),
{
    let mut codes: Vec<String> = Vec::new();
    codes.push(String::from_str("1"));
    codes.push(String::from_str("2"));
    assert(codes.deep_view() =~= everyone_codes());
    resolve_recipients(users, admin, &codes)
}

/// Those to remind: the recipient list for the policy code "2".
pub fn get_reminder_list(users: &Vec<Subscriber>, admin: &Vec<AdminRow>) -> (list: Vec<String>)
    ensures
        is_recipient_list(list.deep_view(), users@, admin@, reminder_codes()),
{
    let mut codes: Vec<String> = Vec::new();
    codes.push(String::from_str("2"));
    assert(codes.deep_view() =~= reminder_codes());
    resolve_recipients(users, admin, &codes)
}

} // verus!
