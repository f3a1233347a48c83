use vstd::prelude::*;

use crate::shortener::decimal;
use crate::store::{code_for_url, codes_unique, has_code, is_live, live_url_for_code, MappingModel};
use crate::service::{issued_code, rows_after_create, short_url_of};

verus! {

/// The first row whose original URL is `url`, if any, is live at `now`.
pub open spec fn first_row_for_url_live(rows: Seq<MappingModel>, url: Seq<char>, now: nat) -> bool
    decreases rows.len(),
{
    if rows.len() == 0 {
        true
    } else if rows[0].original_url == url {
        is_live(rows[0].creation_time, now)
    } else {
        first_row_for_url_live(rows.drop_first(), url, now)
    }
}

proof fn lemma_code_for_url_push(rows: Seq<MappingModel>, m: MappingModel, url: Seq<char>)
    ensures
        code_for_url(rows.push(m), url) == match code_for_url(rows, url) {
            Some(c) => Some(c),
            None => if m.original_url == url {
                Some(m.short_code)
            } else {
                None
            },
        },
    decreases rows.len(),
{
    if rows.len() > 0 {
        assert(rows.push(m).drop_first() =~= rows.drop_first().push(m));
        assert(rows.push(m)[0] == rows[0]);
        lemma_code_for_url_push(rows.drop_first(), m, url);
    } else {
        assert(rows.push(m)[0] == m);
        assert(code_for_url(rows.push(m).drop_first(), url) is None);
    }
}

proof fn lemma_live_url_push(rows: Seq<MappingModel>, m: MappingModel, code: Seq<char>, now: nat)
    ensures
        live_url_for_code(rows.push(m), code, now) == match live_url_for_code(rows, code, now) {
            Some(u) => Some(u),
            None => if m.short_code == code && is_live(m.creation_time, now) {
                Some(m.original_url)
            } else {
                None
            },
        },
    decreases rows.len(),
{
    if rows.len() > 0 {
        assert(rows.push(m).drop_first() =~= rows.drop_first().push(m));
        assert(rows.push(m)[0] == rows[0]);
        lemma_live_url_push(rows.drop_first(), m, code, now);
    } else {
        assert(rows.push(m)[0] == m);
        assert(live_url_for_code(rows.push(m).drop_first(), code, now) is None);
    }
}

proof fn lemma_found_url_row(rows: Seq<MappingModel>, url: Seq<char>, now: nat) -> (i: int)
    requires
        code_for_url(rows, url) is Some,
        first_row_for_url_live(rows, url, now),
    ensures
        0 <= i < rows.len(),
        rows[i].original_url == url,
        code_for_url(rows, url) == Some(rows[i].short_code),
        is_live(rows[i].creation_time, now),
    decreases rows.len(),
{
    if rows[0].original_url == url {
        0
    } else {
        let j = lemma_found_url_row(rows.drop_first(), url, now);
        j + 1
    }
}

proof fn lemma_found_live_row(rows: Seq<MappingModel>, code: Seq<char>, now: nat) -> (i: int)
    requires
        live_url_for_code(rows, code, now) is Some,
    ensures
        0 <= i < rows.len(),
        rows[i].short_code == code,
        is_live(rows[i].creation_time, now),
        live_url_for_code(rows, code, now) == Some(rows[i].original_url),
    decreases rows.len(),
{
    if rows[0].short_code == code && is_live(rows[0].creation_time, now) {
        0
    } else {
        let j = lemma_found_live_row(rows.drop_first(), code, now);
        j + 1
    }
}

/// A code none of whose rows is live at `now` resolves to nothing: the
/// visitor is sent to the timeout page. In particular a code whose rows were
/// all created more than 24 hours before `now` times out.
pub proof fn lemma_expired_code_times_out(rows: Seq<MappingModel>, code: Seq<char>, now: nat)
    requires
        forall|i: int|
            0 <= i < rows.len() && #[trigger] rows[i].short_code == code ==> !is_live(
                rows[i].creation_time,
                now,
            ),
    ensures
        live_url_for_code(rows, code, now) is None,
    decreases rows.len(),
{
    if rows.len() > 0 {
        let t = rows.drop_first();
        assert forall|i: int| 0 <= i < t.len() && #[trigger] t[i].short_code == code implies !is_live(
            t[i].creation_time,
            now,
        ) by {
            assert(rows[i + 1] == t[i]);
        }
        lemma_expired_code_times_out(t, code, now);
    }
}

/// A code that was never issued resolves to nothing, at any time.
pub proof fn lemma_unknown_code_times_out(rows: Seq<MappingModel>, code: Seq<char>, now: nat)
    requires
        !has_code(rows, code),
    ensures
        live_url_for_code(rows, code, now) is None,
{
    lemma_expired_code_times_out(rows, code, now);
}

/// While the codes in the table are unique, a row that is live at `now`
/// (created less than 24 hours before, e.g. 23 hours before) resolves its
/// code to its original URL.
pub proof fn lemma_live_code_resolves(rows: Seq<MappingModel>, i: int, now: nat)
    requires
        codes_unique(rows),
        0 <= i < rows.len(),
        is_live(rows[i].creation_time, now),
    ensures
        live_url_for_code(rows, rows[i].short_code, now) == Some(rows[i].original_url),
    decreases rows.len(),
{
    if i > 0 {
        let t = rows.drop_first();
        assert(rows[0].short_code != rows[i].short_code);
        assert forall|a: int, b: int|
            0 <= a < t.len() && 0 <= b < t.len() && #[trigger] t[a].short_code
                == #[trigger] t[b].short_code implies a == b by {
            assert(rows[a + 1] == t[a] && rows[b + 1] == t[b]);
        }
        assert(t[i - 1] == rows[i]);
        lemma_live_code_resolves(t, i - 1, now);
    }
}

/// Creating a link and resolving it at once leads back to the original URL,
/// as long as the codes in the table are unique, the code made from `now`
/// is not yet taken, and a reused row has not expired.
pub proof fn lemma_create_then_resolve(rows: Seq<MappingModel>, url: Seq<char>, now: nat)
    requires
        codes_unique(rows),
        code_for_url(rows, url) is None ==> !has_code(rows, decimal(now)),
        first_row_for_url_live(rows, url, now),
    ensures
        live_url_for_code(rows_after_create(rows, url, now), issued_code(rows, url, now), now)
            == Some(url),
{
    match code_for_url(rows, url) {
        Some(c) => {
            let i = lemma_found_url_row(rows, url, now);
            lemma_live_code_resolves(rows, i, now);
        },
        None => {
            let m = MappingModel { original_url: url, short_code: decimal(now), creation_time: now };
            lemma_unknown_code_times_out(rows, decimal(now), now);
            lemma_live_url_push(rows, m, decimal(now), now);
        },
    }
}

/// Submitting the same URL twice answers with the same link both times, and
/// the second request leaves the table as the first left it.
pub proof fn lemma_create_twice_same_link(
    rows: Seq<MappingModel>,
    base: Seq<char>,
    url: Seq<char>,
    now1: nat,
    now2: nat,
)
    ensures
        ({
            let rows1 = rows_after_create(rows, url, now1);
            &&& issued_code(rows1, url, now2) == issued_code(rows, url, now1)
            &&& short_url_of(base, issued_code(rows1, url, now2)) == short_url_of(
                base,
                issued_code(rows, url, now1),
            )
            &&& rows_after_create(rows1, url, now2) == rows1
        }),
{
    if code_for_url(rows, url) is None {
        let m = MappingModel { original_url: url, short_code: decimal(now1), creation_time: now1 };
        lemma_code_for_url_push(rows, m, url);
    }
}

/// While the codes in the table are unique, a code that resolves at `t2`
/// resolves identically at every earlier or equal time `t1`: repeated
/// requests redirect the same way until the mapping expires.
pub proof fn lemma_resolve_stable_until_expiry(
    rows: Seq<MappingModel>,
    code: Seq<char>,
    t1: nat,
    t2: nat,
)
    requires
        codes_unique(rows),
        t1 <= t2,
        live_url_for_code(rows, code, t2) is Some,
    ensures
        live_url_for_code(rows, code, t1) == live_url_for_code(rows, code, t2),
{
    let i = lemma_found_live_row(rows, code, t2);
    lemma_live_code_resolves(rows, i, t1);
}

} // verus!
