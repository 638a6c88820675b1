use vstd::prelude::*;

verus! {

/// The heading shown above a download's progress.
#[derive(Debug)]
pub struct IndicatorMessage {
    pub message: String,
    pub step: String,
    pub emoji: String,
}

/// How a download's progress is shown.
#[derive(Debug)]
pub enum Progress {
    /// A bar over this many bytes.
    Bounded(u64),
    /// A spinner with this message, when the size is unknown.
    Spinner(String),
}

/// The spinner message: the heading's message, or a generic one.
pub open spec fn spinner_message_of(indicator: Option<IndicatorMessage>) -> Seq<char> {
    match indicator {
        Some(m) => m.message@,
        None => "Downloading ..."@,
    }
}

/// The progress display for a download whose size the server may report:
/// a bar when it does, a spinner otherwise.
pub fn download_progress(total_size: Option<u64>, indicator: &Option<IndicatorMessage>) -> (r:
    Progress)
    ensures
        total_size matches Some(n) ==> r == Progress::Bounded(n),
        total_size is None ==> (r matches Progress::Spinner(m) && m@ == spinner_message_of(
            *indicator,
        )),
{
    match total_size {
        Some(n) => Progress::Bounded(n),
        None => match indicator {
            Some(m) => Progress::Spinner(m.message.clone()),
            None => Progress::Spinner(String::from_str("Downloading ...")),
        },
    }
}

/// The line shown when a download has finished.
pub fn download_summary(url: &str, path: &str) -> (r: String)
    ensures
        r@ == "Downloaded "@ + url@ + " to "@ + path@,
{
    let mut s = String::from_str("Downloaded ");
    s.append(url);
    s.append(" to ");
    s.append(path);
    s
}

} // verus!
