//! Laws of the names that carry a number.
use vstd::prelude::*;

use crate::classes::branch::{branch_key, branch_slot};
use crate::classes::case::{case_key, case_slot, on_case, proxy_relay, relay_named};
use crate::classes::filter::{filter_key, filter_slot};
use crate::text::same_name;

verus! {

/// The character of a digit.
pub open spec fn digit(n: int) -> char {
    if n == 0 {
        '0'
    } else if n == 1 {
        '1'
    } else if n == 2 {
        '2'
    } else if n == 3 {
        '3'
    } else if n == 4 {
        '4'
    } else if n == 5 {
        '5'
    } else if n == 6 {
        '6'
    } else if n == 7 {
        '7'
    } else if n == 8 {
        '8'
    } else {
        '9'
    }
}

/// A word, and a number of two digits.
pub open spec fn numbered(word: Seq<char>, n: int) -> Seq<char> {
    word + seq![digit(n / 10), digit(n % 10)]
}

/// A word, and a number of as many digits as it takes.
pub open spec fn counted(word: Seq<char>, n: int) -> Seq<char> {
    if n < 10 { word + seq![digit(n)] } else { numbered(word, n) }
}

/// The output of a case carries its number, counted from one.
pub proof fn a_case_has_its_number(i: int)
    requires
        0 <= i < 16,
    ensures
        on_case(i) =~= numbered("OnCase"@, i + 1),
{
    reveal_strlit("OnCase");
    reveal_strlit("OnCase01");
    reveal_strlit("OnCase02");
    reveal_strlit("OnCase03");
    reveal_strlit("OnCase04");
    reveal_strlit("OnCase05");
    reveal_strlit("OnCase06");
    reveal_strlit("OnCase07");
    reveal_strlit("OnCase08");
    reveal_strlit("OnCase09");
    reveal_strlit("OnCase10");
    reveal_strlit("OnCase11");
    reveal_strlit("OnCase12");
    reveal_strlit("OnCase13");
    reveal_strlit("OnCase14");
    reveal_strlit("OnCase15");
    reveal_strlit("OnCase16");
}

/// The key of a case carries its number, counted from one.
pub proof fn a_case_is_written_under_its_number(i: int)
    requires
        0 <= i < 16,
    ensures
        case_key(i) =~= numbered("Case"@, i + 1),
{
    reveal_strlit("Case");
    reveal_strlit("Case01");
    reveal_strlit("Case02");
    reveal_strlit("Case03");
    reveal_strlit("Case04");
    reveal_strlit("Case05");
    reveal_strlit("Case06");
    reveal_strlit("Case07");
    reveal_strlit("Case08");
    reveal_strlit("Case09");
    reveal_strlit("Case10");
    reveal_strlit("Case11");
    reveal_strlit("Case12");
    reveal_strlit("Case13");
    reveal_strlit("Case14");
    reveal_strlit("Case15");
    reveal_strlit("Case16");
}

/// The key of a listener's branch carries its number, counted from one.
pub proof fn a_branch_is_written_under_its_number(i: int)
    requires
        0 <= i < 16,
    ensures
        branch_key(i) =~= numbered("Branch"@, i + 1),
{
    reveal_strlit("Branch");
    reveal_strlit("Branch01");
    reveal_strlit("Branch02");
    reveal_strlit("Branch03");
    reveal_strlit("Branch04");
    reveal_strlit("Branch05");
    reveal_strlit("Branch06");
    reveal_strlit("Branch07");
    reveal_strlit("Branch08");
    reveal_strlit("Branch09");
    reveal_strlit("Branch10");
    reveal_strlit("Branch11");
    reveal_strlit("Branch12");
    reveal_strlit("Branch13");
    reveal_strlit("Branch14");
    reveal_strlit("Branch15");
    reveal_strlit("Branch16");
}

/// The key of a combined filter's filter carries its number, counted from one.
pub proof fn a_filter_is_written_under_its_number(i: int)
    requires
        0 <= i < 10,
    ensures
        filter_key(i) =~= numbered("Filter"@, i + 1),
{
    reveal_strlit("Filter");
    reveal_strlit("Filter01");
    reveal_strlit("Filter02");
    reveal_strlit("Filter03");
    reveal_strlit("Filter04");
    reveal_strlit("Filter05");
    reveal_strlit("Filter06");
    reveal_strlit("Filter07");
    reveal_strlit("Filter08");
    reveal_strlit("Filter09");
    reveal_strlit("Filter10");
}

/// The input, and the output, of a proxy's relay carries its number, counted from
/// one.
pub proof fn a_relay_has_its_number(i: int)
    requires
        0 <= i < 30,
    ensures
        proxy_relay(i) =~= counted("OnProxyRelay"@, i + 1),
{
    reveal_strlit("OnProxyRelay");
    reveal_strlit("OnProxyRelay1");
    reveal_strlit("OnProxyRelay2");
    reveal_strlit("OnProxyRelay3");
    reveal_strlit("OnProxyRelay4");
    reveal_strlit("OnProxyRelay5");
    reveal_strlit("OnProxyRelay6");
    reveal_strlit("OnProxyRelay7");
    reveal_strlit("OnProxyRelay8");
    reveal_strlit("OnProxyRelay9");
    reveal_strlit("OnProxyRelay10");
    reveal_strlit("OnProxyRelay11");
    reveal_strlit("OnProxyRelay12");
    reveal_strlit("OnProxyRelay13");
    reveal_strlit("OnProxyRelay14");
    reveal_strlit("OnProxyRelay15");
    reveal_strlit("OnProxyRelay16");
    reveal_strlit("OnProxyRelay17");
    reveal_strlit("OnProxyRelay18");
    reveal_strlit("OnProxyRelay19");
    reveal_strlit("OnProxyRelay20");
    reveal_strlit("OnProxyRelay21");
    reveal_strlit("OnProxyRelay22");
    reveal_strlit("OnProxyRelay23");
    reveal_strlit("OnProxyRelay24");
    reveal_strlit("OnProxyRelay25");
    reveal_strlit("OnProxyRelay26");
    reveal_strlit("OnProxyRelay27");
    reveal_strlit("OnProxyRelay28");
    reveal_strlit("OnProxyRelay29");
    reveal_strlit("OnProxyRelay30");
}

proof fn a_case_is_found_by_its_key_from(name: Seq<char>, i: int)
    requires
        0 <= i,
    ensures
        match case_slot(name, i) {
            Some(k) => i <= k < 16 && same_name(name, case_key(k)) && forall|j: int|
                i <= j < k ==> !same_name(name, #[trigger] case_key(j)),
            None => forall|j: int| i <= j < 16 ==> !same_name(name, #[trigger] case_key(j)),
        },
    decreases 16 - i,
{
    if i < 16 && !same_name(name, case_key(i)) {
        a_case_is_found_by_its_key_from(name, i + 1);
    }
}

/// A key is that of the case whose key it is, and of no other.
pub proof fn a_case_is_found_by_its_key(name: Seq<char>)
    ensures
        match case_slot(name, 0) {
            Some(k) => 0 <= k < 16 && same_name(name, case_key(k)) && forall|j: int|
                0 <= j < k ==> !same_name(name, #[trigger] case_key(j)),
            None => forall|j: int| 0 <= j < 16 ==> !same_name(name, #[trigger] case_key(j)),
        },
{
    a_case_is_found_by_its_key_from(name, 0);
}

proof fn a_branch_is_found_by_its_key_from(name: Seq<char>, i: int)
    requires
        0 <= i,
    ensures
        match branch_slot(name, i) {
            Some(k) => i <= k < 16 && same_name(name, branch_key(k)) && forall|j: int|
                i <= j < k ==> !same_name(name, #[trigger] branch_key(j)),
            None => forall|j: int| i <= j < 16 ==> !same_name(name, #[trigger] branch_key(j)),
        },
    decreases 16 - i,
{
    if i < 16 && !same_name(name, branch_key(i)) {
        a_branch_is_found_by_its_key_from(name, i + 1);
    }
}

/// A key is that of the branch whose key it is, and of no other.
pub proof fn a_branch_is_found_by_its_key(name: Seq<char>)
    ensures
        match branch_slot(name, 0) {
            Some(k) => 0 <= k < 16 && same_name(name, branch_key(k)) && forall|j: int|
                0 <= j < k ==> !same_name(name, #[trigger] branch_key(j)),
            None => forall|j: int| 0 <= j < 16 ==> !same_name(name, #[trigger] branch_key(j)),
        },
{
    a_branch_is_found_by_its_key_from(name, 0);
}

proof fn a_filter_is_found_by_its_key_from(name: Seq<char>, i: int)
    requires
        0 <= i,
    ensures
        match filter_slot(name, i) {
            Some(k) => i <= k < 10 && same_name(name, filter_key(k)) && forall|j: int|
                i <= j < k ==> !same_name(name, #[trigger] filter_key(j)),
            None => forall|j: int| i <= j < 10 ==> !same_name(name, #[trigger] filter_key(j)),
        },
    decreases 10 - i,
{
    if i < 10 && !same_name(name, filter_key(i)) {
        a_filter_is_found_by_its_key_from(name, i + 1);
    }
}

/// A key is that of the filter whose key it is, and of no other.
pub proof fn a_filter_is_found_by_its_key(name: Seq<char>)
    ensures
        match filter_slot(name, 0) {
            Some(k) => 0 <= k < 10 && same_name(name, filter_key(k)) && forall|j: int|
                0 <= j < k ==> !same_name(name, #[trigger] filter_key(j)),
            None => forall|j: int| 0 <= j < 10 ==> !same_name(name, #[trigger] filter_key(j)),
        },
{
    a_filter_is_found_by_its_key_from(name, 0);
}

proof fn a_relay_is_found_by_its_name_from(name: Seq<char>, i: int)
    requires
        0 <= i,
    ensures
        match relay_named(name, i) {
            Some(k) => i <= k < 30 && same_name(name, proxy_relay(k)) && forall|j: int|
                i <= j < k ==> !same_name(name, #[trigger] proxy_relay(j)),
            None => forall|j: int| i <= j < 30 ==> !same_name(name, #[trigger] proxy_relay(j)),
        },
    decreases 30 - i,
{
    if i < 30 && !same_name(name, proxy_relay(i)) {
        a_relay_is_found_by_its_name_from(name, i + 1);
    }
}

/// A name is that of the relay whose name it is, and of no other.
pub proof fn a_relay_is_found_by_its_name(name: Seq<char>)
    ensures
        match relay_named(name, 0) {
            Some(k) => 0 <= k < 30 && same_name(name, proxy_relay(k)) && forall|j: int|
                0 <= j < k ==> !same_name(name, #[trigger] proxy_relay(j)),
            None => forall|j: int| 0 <= j < 30 ==> !same_name(name, #[trigger] proxy_relay(j)),
        },
{
    a_relay_is_found_by_its_name_from(name, 0);
}

} // verus!
