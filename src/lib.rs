//! Splices status blocks from polled providers into a status bar's JSON
//! stream, one line at a time.

/// Character sequences and strings: conversions between the two.
pub mod text;
/// Status blocks and their JSON form.
pub mod status;
/// The chain of rules that extract a song title from a window title.
pub mod matchers;
/// The song title provider: spinner, short title and decoration.
pub mod song_title;
/// The search of a window tree for a song title.
pub mod crawl;
/// The weather provider: rate limit and cached report.
pub mod weather;
/// The line protocol: headers, trimming and splicing.
pub mod splice;
/// The uptime provider's text.
pub mod uptime;
