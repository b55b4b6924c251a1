//! One decoded search result and its mathematical model.

use vstd::prelude::*;

verus! {

/// The mathematical model of a [`SearchResult`]: every field as the
/// sequence of characters it holds.
pub struct Record {
    pub network: Seq<char>,
    pub channel: Seq<char>,
    pub bot: Seq<char>,
    pub filesize: Seq<char>,
    pub filename: Seq<char>,
    pub packet_number: Seq<char>,
    pub download_count: Seq<char>,
    pub upload_speed: Option<Seq<char>>,
}

/// Represents a single result from SunXDCC's search API.
///
/// Every field keeps the service's own formatting.
#[derive(Debug)]
pub struct SearchResult {
    /// The IRC network that this result's bot is on.
    ///
    /// This is typically the fully-qualified domain name (e.g. `irc.foo.net`) or
    /// IP address for the record.
    pub network: String,
    /// The IRC channel that this result's bot is on.
    ///
    /// This is typically formatted as `"#channelname"`.
    pub channel: String,
    /// The IRC bot's name.
    pub bot: String,
    /// The size of the file.
    ///
    /// This is typically formatted as `"[XXXS]"`, e.g. `"[123M]"` for 123MB.
    pub filesize: String,
    /// The filename.
    pub filename: String,
    /// The packet number for this result.
    ///
    /// This is typically formatted as `"#XXX"`, e.g. `"#123"` for packet number 123.
    pub packet_number: String,
    /// The file's download count.
    ///
    /// This is typically formatted as `"Xx"`, e.g `"5x"` for 5 downloads.
    pub download_count: String,
    /// The serving IRC bot's maximum upload speed, if known.
    ///
    /// This is typically formatted as `"XXXX.YYkB/s"`, e.g. `"1000.25kB/s"`.
    pub upload_speed: Option<String>,
}

impl View for SearchResult {
    type V = Record;

    open spec fn view(&self) -> Record {
        Record {
            network: self.network@,
            channel: self.channel@,
            bot: self.bot@,
            filesize: self.filesize@,
            filename: self.filename@,
            packet_number: self.packet_number@,
            download_count: self.download_count@,
            upload_speed: match self.upload_speed {
                Some(speed) => Some(speed@),
                None => None,
            },
        }
    }
}

/// The models of a buffer of results, in the buffer's own order.
pub open spec fn records_of(results: Seq<SearchResult>) -> Seq<Record> {
    Seq::new(results.len(), |i: int| results[i]@)
}

} // verus!
