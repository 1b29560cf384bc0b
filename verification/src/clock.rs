//! The wall clock, and the names that are built from its reading.

use vstd::prelude::*;

verus! {

/// Whether the character is a decimal digit.
pub open spec fn is_digit(c: char) -> bool {
    '0' <= c <= '9'
}

/// The shape of a year as it is written: four digits, or a sign and at
/// least four digits where the year lies outside 0 to 9999.
pub open spec fn year_shape(year: Seq<char>) -> bool {
    ||| year.len() == 4 && forall|i: int| 0 <= i < 4 ==> is_digit(#[trigger] year[i])
    ||| year.len() >= 5 && (year[0] == '+' || year[0] == '-') && forall|i: int|
        1 <= i < year.len() ==> is_digit(#[trigger] year[i])
}

/// The shape of a time stamp: the year, then two digits each for month
/// and day, an underscore, and two digits each for hour, minute and
/// second. With a year of four digits that is `YYYYMMDD_HHMMSS`.
pub open spec fn stamp_shape(stamp: Seq<char>) -> bool {
    let n = stamp.len() as int;
    &&& n >= 15
    &&& year_shape(stamp.subrange(0, n - 11))
    &&& forall|i: int| n - 11 <= i < n - 7 ==> is_digit(#[trigger] stamp[i])
    &&& stamp[n - 7] == '_'
    &&& forall|i: int| n - 6 <= i < n ==> is_digit(#[trigger] stamp[i])
}

/// Reads the local time with `chrono::Local::now` and writes it with
/// `DateTime::format` under the pattern `%Y%m%d_%H%M%S`. The reading
/// differs from call to call, so only the shape of the text is claimed:
/// chrono writes the year zero-padded to four digits, with a sign before
/// it where it lies outside 0 to 9999, and each of month, day, hour,
/// minute and second zero-padded to two digits.
#[verifier::external_body]
pub(crate) fn local_timestamp() -> (stamp: String)
    ensures
        stamp_shape(stamp@),
{
    chrono::Local::now().format("%Y%m%d_%H%M%S").to_string()
}

/// There are texts of the shape of a time stamp.
pub proof fn lemma_stamp_shape_is_met()
    ensures
        stamp_shape("19700101_000000"@),
{
    let stamp = "19700101_000000"@;
    reveal_strlit("19700101_000000");
    assert(stamp.len() == 15);
    let year = stamp.subrange(0, 4);
    assert(year.len() == 4);
    assert forall|i: int| 0 <= i < 4 implies is_digit(#[trigger] year[i]) by {
        assert(year[i] == stamp[i]);
    }
    assert(year_shape(year));
}

/// The backup directory for one run: the prefix, a hyphen, the time.
pub open spec fn backup_dir_text(prefix: Seq<char>, stamp: Seq<char>) -> Seq<char> {
    prefix + "-"@ + stamp
}

/// Names the backup directory of a run that read the time `stamp`.
pub fn backup_dir_name(prefix: &str, stamp: &str) -> (res: String)
    ensures
        res@ == backup_dir_text(prefix@, stamp@),
{
    let mut name = String::from_str(prefix);
    name.append("-");
    name.append(stamp);
    name
}

/// The directory, relative to where the installer runs, that holds the
/// log files.
pub open spec fn log_dir_text() -> Seq<char> {
    "logs"@
}

/// The directory that holds the log files.
pub fn log_dir() -> (res: &'static str)
    ensures
        res@ == log_dir_text(),
{
    "logs"
}

/// The log file of one run, named after the time at which it began.
pub open spec fn log_file_text(stamp: Seq<char>) -> Seq<char> {
    log_dir_text() + "/rime_install_"@ + stamp + ".log"@
}

/// Names the log file of a run that began at the time `stamp`.
pub fn log_file_path(stamp: &str) -> (res: String)
    ensures
        res@ == log_file_text(stamp@),
{
    let mut path = String::from_str(log_dir());
    path.append("/rime_install_");
    path.append(stamp);
    path.append(".log");
    path
}

/// The log file for a run that begins now.
pub fn new_log_file_path() -> (res: String)
    ensures
        exists|stamp: Seq<char>| stamp_shape(stamp) && res@ == #[trigger] log_file_text(stamp),
{
    let stamp = local_timestamp();
    let path = log_file_path(stamp.as_str());
    assert(stamp_shape(stamp@) && path@ == log_file_text(stamp@));
    path
}

} // verus!
