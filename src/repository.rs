//! The decisions of the repository's operations, apart from the file system:
//! where the data lives, what a load yields, how an export file is named and
//! what the info query reports.
use crate::error::StoreError;
use crate::model::{AppInfo, ExportResult, Portfolio, PortfolioData};
use crate::store::has_id;
use vstd::prelude::*;

verus! {

/// The application's subdirectory of the home directory.
pub const DATA_DIR: &'static str = ".portfolio-generator";

/// The data file's name inside `DATA_DIR`.
pub const DATA_FILE: &'static str = "portfolios.json";

/// The display name of the application.
pub const APP_NAME: &'static str = "Portfolio Generator";

/// The extension of an exported Markdown file.
pub const EXPORT_EXTENSION: &'static str = ".md";

/// What a load yields: the empty store when no file was found, else what reading
/// and parsing the file gave.
pub fn load_outcome(found: Option<Result<PortfolioData, StoreError>>) -> (r: Result<
    PortfolioData,
    StoreError,
>)
    ensures
        found is None ==> (r matches Ok(d) && d.portfolios@.len() == 0 && d.next_number == 1),
        found matches Some(f) ==> r == f,
{
    match found {
        None => Ok(PortfolioData::empty()),
        Some(f) => f,
    }
}

/// Whether `portfolio` can be merged into `data`: a new record's number must
/// leave room for the number after it.
pub fn upsert_fits(data: &PortfolioData, portfolio: &Portfolio) -> (r: bool)
    ensures
        r == (has_id(data.portfolios@, portfolio.id@) || portfolio.number < i32::MAX),
{
    match data.position_of(&portfolio.id) {
        Some(_) => true,
        None => portfolio.number < i32::MAX,
    }
}

/// `s` with every space replaced by an underscore.
pub open spec fn underscored(s: Seq<char>) -> Seq<char> {
    Seq::new(s.len(), |i: int| if s[i] == ' ' { '_' } else { s[i] })
}

/// The file name an export of a portfolio named `name` is written to.
pub fn export_file_name(name: &String) -> (r: String)
    ensures
        r@ == underscored(name@) + EXPORT_EXTENSION@,
{
    let s = name.as_str();
    let n = s.unicode_len();
    let mut out = String::new();
    let mut i: usize = 0;
    while i < n
        invariant
            n == s@.len(),
            s@ == name@,
            i <= n,
            out@ == underscored(s@).subrange(0, i as int),
        decreases n - i,
    {
        if s.get_char(i) == ' ' {
            out.append("_");
        } else {
            out.append(s.substring_char(i, i + 1));
        }
        proof {
            reveal_strlit("_");
        }
        assert(out@ =~= underscored(s@).subrange(0, i + 1));
        i = i + 1;
    }
    assert(out@ =~= underscored(name@));
    out.concat(EXPORT_EXTENSION)
}

impl ExportResult {
    /// The result of an export that wrote its file at `path`.
    pub fn written(path: String) -> (r: ExportResult)
        ensures
            r.success,
            r.path == Some(path),
    {
        ExportResult { success: true, path: Some(path) }
    }
}

impl AppInfo {
    /// The metadata of the application at `version` whose data file is `data_path`.
    pub fn describe(version: String, data_path: String) -> (r: AppInfo)
        ensures
            r.version == version,
            r.name@ == APP_NAME@,
            r.data_path == data_path,
    {
        AppInfo { version, name: String::from_str(APP_NAME), data_path }
    }
}

} // verus!
