//! What holds of the decoder and of the iteration as a whole.

use crate::raw::{not_recorded, Page, RawResult};
use crate::record::Record;
use crate::results::QueryState;
use vstd::prelude::*;

verus! {

/// A consistent page of `n` entries decodes to exactly `n` records, in the
/// order of the lists: record `i` holds entry `i` of each list as it stands,
/// and its upload speed is absent if and only if entry `i` of the last list
/// is the text `Na`.
pub proof fn lemma_records_follow_lists(page: Page)
    requires
        page.consistent(),
    ensures
        page.records().len() == page.network.len(),
        page.records().len() == page.botrec.len(),
        forall|i: int|
            0 <= i < page.records().len() ==> {
                let record = #[trigger] page.records()[i];
                &&& record.network == page.network[i]
                &&& record.channel == page.channel[i]
                &&& record.bot == page.bot[i]
                &&& record.filesize == page.fsize[i]
                &&& record.filename == page.fname[i]
                &&& record.packet_number == page.packnum[i]
                &&& record.download_count == page.gets[i]
                &&& (record.upload_speed is None <==> page.botrec[i] == "Na"@)
                &&& (record.upload_speed matches Some(speed) ==> speed == page.botrec[i])
            },
{
    reveal_strlit("Na");
    assert("Na"@ =~= not_recorded());
}

/// Decoding depends on nothing but the texts that the lists hold: two raw
/// pages with the same texts are consistent or not together, and decode to
/// the same records.
pub proof fn lemma_decoding_repeats(first: RawResult, second: RawResult)
    requires
        first@ == second@,
    ensures
        first@.consistent() == second@.consistent(),
        first@.records() == second@.records(),
{
}

/// The records of the pages `from`, `from + 1`, ... up to, not including,
/// `to`, when the service answers the request for page `i` with `service(i)`,
/// in the order of the page indices.
pub open spec fn records_through(service: spec_fn(nat) -> Page, from: nat, to: nat) -> Seq<Record>
    decreases to - from,
{
    if from >= to {
        Seq::empty()
    } else {
        service(from).records() + records_through(service, from + 1, to)
    }
}

/// The records that the first `pulls` pulls hand out from `state`, when the
/// service answers the request for page `i` with the consistent page
/// `service(i)`. Each pull is one step of [`QueryState::pulled`]; the pull
/// that meets an empty page hands out nothing, and ends the run.
pub open spec fn yielded(state: QueryState, service: spec_fn(nat) -> Page, pulls: nat) -> Seq<Record>
    decreases pulls,
{
    if pulls == 0 {
        Seq::empty()
    } else {
        let page = service(state.page);
        match state.handed_out(page) {
            Some(record) => seq![record] + yielded(
                state.pulled(page),
                service,
                (pulls - 1) as nat,
            ),
            None => Seq::empty(),
        }
    }
}

/// The page indices that the first `pulls` pulls ask the service for, one
/// after the other, from `state` and with the same service. A pull asks
/// for the state's page index where it has to fetch, and for nothing where
/// a record is pending. The pulls go on after an empty page.
pub open spec fn requested(state: QueryState, service: spec_fn(nat) -> Page, pulls: nat) -> Seq<nat>
    decreases pulls,
{
    if pulls == 0 {
        Seq::empty()
    } else {
        let asked = if state.needs_fetch() {
            seq![state.page]
        } else {
            Seq::empty()
        };
        asked + requested(state.pulled(service(state.page)), service, (pulls - 1) as nat)
    }
}

/// A search begins well-formed, and every step of a pull keeps it so.
pub proof fn lemma_steps_keep_wf(state: QueryState, page: Page)
    requires
        state.wf(),
    ensures
        QueryState::fresh(state.query).wf(),
        state.refreshed(page).wf(),
        state.cleared().wf(),
        !state.needs_fetch() ==> state.advanced().wf(),
{
}

/// Pagination order. While the pages from the state's index up to `to` are
/// consistent and hold records, the pulls hand out what is pending, then
/// every record of each of these pages in the page's own order, one page
/// after the other: no record of a later page comes before one of an
/// earlier page, no page is decoded twice and none is left out.
pub proof fn lemma_pages_in_order(state: QueryState, service: spec_fn(nat) -> Page, to: nat)
    requires
        state.wf(),
        forall|i: nat|
            state.page <= i < to ==> (#[trigger] service(i)).consistent() && service(i).len() > 0,
    ensures
        yielded(
            state,
            service,
            (state.pending + records_through(service, state.page, to)).len(),
        ) == state.pending + records_through(service, state.page, to),
    decreases (state.pending + records_through(service, state.page, to)).len(),
{
    let rest = records_through(service, state.page, to);
    let pulls = (state.pending + rest).len();
    if pulls == 0 {
        assert(state.pending + rest =~= Seq::empty());
    } else if !state.needs_fetch() {
        let next = state.advanced();
        assert(state.pending =~= seq![state.pending.first()] + next.pending);
        assert(state.pending + rest =~= seq![state.pending.first()] + (next.pending + rest));
        lemma_pages_in_order(next, service, to);
    } else {
        assert(state.pending.len() == 0);
        assert(state.page < to);
        let page = service(state.page);
        let next = state.refreshed(page).advanced();
        let later = records_through(service, state.page + 1, to);
        assert(rest == page.records() + later);
        assert(page.records() =~= seq![page.record(0)] + next.pending);
        assert(state.pending + rest =~= seq![page.record(0)] + (next.pending + later));
        lemma_pages_in_order(next, service, to);
    }
}

/// The page index moves with the pages and with nothing else: taking a
/// page in moves it on by exactly one, while handing a record out or
/// failing to fetch leaves it where it was. After a failure the next pull
/// fetches again, and so asks for the same page once more.
pub proof fn lemma_page_index_follows_pages(state: QueryState, page: Page)
    ensures
        state.refreshed(page).page == state.page + 1,
        state.advanced().page == state.page,
        state.cleared().page == state.page,
        state.cleared().needs_fetch(),
{
}

/// Requests count up. While every request is answered with a consistent
/// page, empty or not, the pulls send at most one request each, and the
/// requests ask for the state's page index, the one after it, and so on:
/// request `k` of a run asks for page `state.page + k`, which from a fresh
/// search is page `k`. No page is asked for twice and none is left out,
/// right after an empty page too.
pub proof fn lemma_requests_count_up(state: QueryState, service: spec_fn(nat) -> Page, pulls: nat)
    requires
        forall|i: nat| state.page <= i ==> (#[trigger] service(i)).consistent(),
    ensures
        requested(state, service, pulls).len() <= pulls,
        forall|k: int|
            0 <= k < requested(state, service, pulls).len() ==> #[trigger] requested(
                state,
                service,
                pulls,
            )[k] == state.page + k,
    decreases pulls,
{
    if pulls > 0 {
        let next = state.pulled(service(state.page));
        lemma_requests_count_up(next, service, (pulls - 1) as nat);
        let later = requested(next, service, (pulls - 1) as nat);
        if state.needs_fetch() {
            assert(next.page == state.page + 1);
            assert(requested(state, service, pulls) =~= seq![state.page] + later);
        } else {
            assert(next.page == state.page);
            assert(requested(state, service, pulls) =~= later);
        }
    }
}

/// An empty page ends the run. The pull that meets it sends exactly one
/// request, for the index of the page that turns out empty, and hands out
/// nothing; it leaves nothing pending and the page index moved on by one,
/// so that the pull after it asks for the page that follows the empty one.
pub proof fn lemma_empty_page_ends_run(state: QueryState, service: spec_fn(nat) -> Page, pulls: nat)
    requires
        state.needs_fetch(),
        service(state.page).consistent(),
        service(state.page).len() == 0,
    ensures
        requested(state, service, 1) == seq![state.page],
        state.handed_out(service(state.page)) is None,
        yielded(state, service, pulls) == Seq::<Record>::empty(),
        state.pulled(service(state.page)).needs_fetch(),
        state.pulled(service(state.page)).page == state.page + 1,
        requested(state, service, 2) == seq![state.page, state.page + 1],
{
    let next = state.pulled(service(state.page));
    assert(requested(next, service, 0) =~= Seq::<nat>::empty());
    assert(requested(state, service, 1) =~= seq![state.page]);
    assert(requested(next, service, 1) =~= seq![next.page]) by {
        assert(requested(next.pulled(service(next.page)), service, 0) =~= Seq::<nat>::empty());
    }
    assert(requested(state, service, 2) =~= seq![state.page, state.page + 1]);
}

} // verus!
