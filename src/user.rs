use vstd::prelude::*;

verus! {

/// Per-user statistics as the tracker API reports them.
///
/// The two ratio figures are carried as their decimal text, the way the
/// exposition format prints them.
pub struct UserStats {
    pub uploaded: u64,
    pub downloaded: u64,
    pub ratio: String,
    pub required_ratio: String,
    pub perfect_flacs: u32,
    pub uploaded_count: u32,
    pub seeding: u32,
    pub leeching: u32,
    pub snatched: u32,
}

/// The flat metrics record of one account: one exposition line per field.
pub struct User {
    pub uploaded_bytes: u64,
    pub downloaded_bytes: u64,
    /// Decimal text of the upload/download ratio.
    pub ratio: String,
    /// Decimal text of the ratio required to keep the member class.
    pub required_ratio: String,
    pub perfect_flacs: Option<u32>,
    pub uploaded_count: u32,
    pub seeding: u32,
    pub leeching: u32,
    pub snatched: u32,
}

impl User {
    /// Maps the API's statistics onto the metrics record, field by field.
    pub fn from_gazelle(stats: UserStats) -> (r: User)
        ensures
            r.uploaded_bytes == stats.uploaded,
            r.downloaded_bytes == stats.downloaded,
            r.ratio@ == stats.ratio@,
            r.required_ratio@ == stats.required_ratio@,
            r.perfect_flacs == Some(stats.perfect_flacs),
            r.uploaded_count == stats.uploaded_count,
            r.seeding == stats.seeding,
            r.leeching == stats.leeching,
            r.snatched == stats.snatched,
    {
        User {
            uploaded_bytes: stats.uploaded,
            downloaded_bytes: stats.downloaded,
            ratio: stats.ratio,
            required_ratio: stats.required_ratio,
            perfect_flacs: Some(stats.perfect_flacs),
            uploaded_count: stats.uploaded_count,
            seeding: stats.seeding,
            leeching: stats.leeching,
            snatched: stats.snatched,
        }
    }
}

} // verus!
