//! The wire format of one page of results, and its decoder.

use crate::error::Error;
use crate::record::{records_of, Record, SearchResult};
use vstd::prelude::*;

verus! {

/// The mathematical model of a [`RawResult`]: eight lists of strings that
/// describe one record at each index.
pub struct Page {
    pub network: Seq<Seq<char>>,
    pub channel: Seq<Seq<char>>,
    pub bot: Seq<Seq<char>>,
    pub fsize: Seq<Seq<char>>,
    pub fname: Seq<Seq<char>>,
    pub packnum: Seq<Seq<char>>,
    pub gets: Seq<Seq<char>>,
    pub botrec: Seq<Seq<char>>,
}

impl Page {
    /// All eight lists have one length.
    pub open spec fn consistent(self) -> bool {
        &&& self.network.len() == self.channel.len()
        &&& self.channel.len() == self.bot.len()
        &&& self.channel.len() == self.fsize.len()
        &&& self.channel.len() == self.fname.len()
        &&& self.channel.len() == self.packnum.len()
        &&& self.channel.len() == self.gets.len()
        &&& self.channel.len() == self.botrec.len()
    }

    /// The number of records that a consistent page describes.
    pub open spec fn len(self) -> nat {
        self.network.len()
    }

    /// The record that index `i` of every list describes. The upload speed
    /// is absent exactly where the service wrote its marker for "not
    /// recorded"; any other text is kept as it is.
    pub open spec fn record(self, i: int) -> Record {
        Record {
            network: self.network[i],
            channel: self.channel[i],
            bot: self.bot[i],
            filesize: self.fsize[i],
            filename: self.fname[i],
            packet_number: self.packnum[i],
            download_count: self.gets[i],
            upload_speed: if self.botrec[i] == not_recorded() {
                None
            } else {
                Some(self.botrec[i])
            },
        }
    }

    /// The records of the page, in the order in which the service listed
    /// them.
    pub open spec fn records(self) -> Seq<Record> {
        Seq::new(self.len(), |i: int| self.record(i))
    }
}

/// The marker that the service writes in place of an upload speed that it
/// has not recorded: `Na`.
pub open spec fn not_recorded() -> Seq<char> {
    seq!['N', 'a']
}

/// The message of the error that an inconsistent page is rejected with.
pub const LENGTH_MISMATCH: &'static str = "sequence length mismatch";

/// The characters of each string of a list.
pub open spec fn texts(list: Seq<String>) -> Seq<Seq<char>> {
    Seq::new(list.len(), |i: int| list[i]@)
}

/// Represents the raw results from a single search request's response:
/// adjacent lists, one per field, aligned by index.
#[derive(Debug)]
pub struct RawResult {
    pub network: Vec<String>,
    pub channel: Vec<String>,
    pub bot: Vec<String>,
    pub fsize: Vec<String>,
    pub fname: Vec<String>,
    pub packnum: Vec<String>,
    pub gets: Vec<String>,
    pub botrec: Vec<String>,
}

impl View for RawResult {
    type V = Page;

    open spec fn view(&self) -> Page {
        Page {
            network: texts(self.network@),
            channel: texts(self.channel@),
            bot: texts(self.bot@),
            fsize: texts(self.fsize@),
            fname: texts(self.fname@),
            packnum: texts(self.packnum@),
            gets: texts(self.gets@),
            botrec: texts(self.botrec@),
        }
    }
}

impl RawResult {
    /// Are the contents of this `RawResult` consistent?
    ///
    /// Internally, a `RawResult` is a bunch of adjacent lists, and is
    /// "consistent" if and only if all lists are the same length.
    pub fn is_consistent(&self) -> (consistent: bool)
        ensures
            consistent == self@.consistent(),
    {
        self.network.len() == self.channel.len()
            && self.channel.len() == self.bot.len()
            && self.channel.len() == self.fsize.len()
            && self.channel.len() == self.fname.len()
            && self.channel.len() == self.packnum.len()
            && self.channel.len() == self.gets.len()
            && self.channel.len() == self.botrec.len()
    }

    /// Consume this `RawResult`, constructing into `results`.
    ///
    /// The records are appended last first, so that popping `results`
    /// hands them out in the service's order. An inconsistent page is
    /// rejected whole and leaves `results` as it was.
    pub fn consume(self, results: &mut Vec<SearchResult>) -> (outcome: Result<(), Error>)
        ensures
            self@.consistent() ==> outcome is Ok && records_of(final(results)@) == records_of(
                old(results)@,
            ) + self@.records().reverse(),
            !self@.consistent() ==> final(results)@ == old(results)@ && (outcome matches Err(
                Error::Malformed(message),
            ) && message@ == LENGTH_MISMATCH@),
    {
        if !self.is_consistent() {
            return Err(Error::Malformed(LENGTH_MISMATCH.to_owned()));
        }
        let ghost page = self@;
        let ghost before = records_of(results@);
        let mut lists = self;
        let marker = "Na".to_owned();
        proof {
            reveal_strlit("Na");
            assert(marker@ =~= not_recorded());
        }
        let mut left: usize = lists.network.len();
        // Each result is inserted in reverse order, so that we can `pop` them later.
        while left > 0
            invariant
                page.consistent(),
                marker@ == not_recorded(),
                left <= page.len(),
                lists@.network == page.network.take(left as int),
                lists@.channel == page.channel.take(left as int),
                lists@.bot == page.bot.take(left as int),
                lists@.fsize == page.fsize.take(left as int),
                lists@.fname == page.fname.take(left as int),
                lists@.packnum == page.packnum.take(left as int),
                lists@.gets == page.gets.take(left as int),
                lists@.botrec == page.botrec.take(left as int),
                records_of(results@) == before + page.records().reverse().take(
                    page.len() - left,
                ),
            decreases left,
        {
            let ghost filled = results@;
            proof {
                assert(lists@.network.len() == left && lists@.channel.len() == left);
                assert(lists@.bot.len() == left && lists@.fsize.len() == left);
                assert(lists@.fname.len() == left && lists@.packnum.len() == left);
                assert(lists@.gets.len() == left && lists@.botrec.len() == left);
            }
            let network = take_last(&mut lists.network);
            let channel = take_last(&mut lists.channel);
            let bot = take_last(&mut lists.bot);
            let fsize = take_last(&mut lists.fsize);
            let fname = take_last(&mut lists.fname);
            let packnum = take_last(&mut lists.packnum);
            let gets = take_last(&mut lists.gets);
            let botrec = take_last(&mut lists.botrec);
            let upload_speed = if botrec == marker {
                None
            } else {
                Some(botrec)
            };
            let result = SearchResult {
                network: network,
                channel: channel,
                bot: bot,
                filesize: fsize,
                filename: fname,
                packet_number: packnum,
                download_count: gets,
                upload_speed: upload_speed,
            };
            left = left - 1;
            proof {
                assert(result@ == page.record(left as int));
            }
            results.push(result);
            proof {
                assert(records_of(results@) =~= records_of(filled).push(
                    page.record(left as int),
                ));
                assert(page.records().reverse().take(page.len() - left) =~= page.records().reverse().take(
                    page.len() - left - 1,
                ).push(page.record(left as int)));
            }
        }
        proof {
            assert(page.records().reverse().take(page.len() as int) =~= page.records().reverse());
        }
        Ok(())
    }
}

/// Moves the last string out of a non-empty list.
fn take_last(list: &mut Vec<String>) -> (last: String)
    requires
        old(list)@.len() > 0,
    ensures
        last == old(list)@.last(),
        final(list)@ == old(list)@.drop_last(),
        texts(final(list)@) == texts(old(list)@).drop_last(),
        last@ == texts(old(list)@).last(),
{
    let popped = list.pop();
    proof {
        assert(list@ =~= old(list)@.drop_last());
        assert(texts(list@) =~= texts(old(list)@).drop_last());
    }
    popped.unwrap()
}

} // verus!
