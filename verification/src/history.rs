use vstd::prelude::*;

use crate::text::{decimal_digits, decimal_text, signed_text, unsigned_text};

verus! {

/// How many recognitions the history keeps, newest first.
pub const HISTORY_LIMIT: u64 = 2000;

/// The statement creating the history table if it is missing.
pub fn create_history_table_sql() -> (s: String)
    ensures
        s@ == "CREATE TABLE IF NOT EXISTS ocr_history (\n            id INTEGER PRIMARY KEY AUTOINCREMENT,\n            time TEXT,\n            ocr_text TEXT,\n            trans_text TEXT,\n            image_data BLOB\n        )"@,
{
    String::from_str(
        "CREATE TABLE IF NOT EXISTS ocr_history (\n            id INTEGER PRIMARY KEY AUTOINCREMENT,\n            time TEXT,\n            ocr_text TEXT,\n            trans_text TEXT,\n            image_data BLOB\n        )",
    )
}

/// The statement adding one recognition: time, recognised text, translation and
/// picture bytes, in that order.
pub fn insert_history_sql() -> (s: String)
    ensures
        s@ == "INSERT INTO ocr_history (time, ocr_text, trans_text, image_data) VALUES (?1, ?2, ?3, ?4)"@,
{
    String::from_str(
        "INSERT INTO ocr_history (time, ocr_text, trans_text, image_data) VALUES (?1, ?2, ?3, ?4)",
    )
}

/// The statement dropping all but the newest [`HISTORY_LIMIT`] recognitions.
pub fn prune_history_sql() -> (s: String)
    ensures
        s@ == "DELETE FROM ocr_history WHERE id NOT IN (\n            SELECT id FROM ocr_history ORDER BY id DESC LIMIT "@
            + decimal_text(HISTORY_LIMIT as int) + "\n        )"@,
{
    let mut s = String::from_str(
        "DELETE FROM ocr_history WHERE id NOT IN (\n            SELECT id FROM ocr_history ORDER BY id DESC LIMIT ",
    );
    s.append(unsigned_text(HISTORY_LIMIT).as_str());
    s.append("\n        )");
    s
}

/// The statement reading the newest [`HISTORY_LIMIT`] recognitions, newest
/// first: id, time, recognised text and picture bytes.
pub fn load_history_sql() -> (s: String)
    ensures
        s@ == "SELECT id, time, ocr_text, image_data FROM ocr_history ORDER BY id DESC LIMIT "@
            + decimal_text(HISTORY_LIMIT as int),
{
    let mut s = String::from_str(
        "SELECT id, time, ocr_text, image_data FROM ocr_history ORDER BY id DESC LIMIT ",
    );
    s.append(unsigned_text(HISTORY_LIMIT).as_str());
    s
}

/// `n` in decimal, zero-padded on the left to at least `width` digits.
pub open spec fn zero_padded(n: nat, width: nat) -> Seq<char> {
    let d = decimal_digits(n);
    if d.len() < width {
        Seq::new((width - d.len()) as nat, |i: int| '0') + d
    } else {
        d
    }
}

/// Whether `year` is a leap year of the proleptic Gregorian calendar.
pub open spec fn is_leap_year(year: int) -> bool {
    (year % 4 == 0 && year % 100 != 0) || year % 400 == 0
}

/// The number of days of `month` (1 to 12) in `year`.
pub open spec fn days_in_month(year: int, month: int) -> int {
    if month == 2 {
        if is_leap_year(year) {
            29
        } else {
            28
        }
    } else if month == 4 || month == 6 || month == 9 || month == 11 {
        30
    } else {
        31
    }
}

/// The fields name a real calendar day and a time of day (seconds below 60).
pub open spec fn is_valid_date_time(year: int, month: int, day: int, hour: int, minute: int, second: int) -> bool {
    &&& 1 <= month <= 12
    &&& 1 <= day <= days_in_month(year, month)
    &&& 0 <= hour < 24
    &&& 0 <= minute < 60
    &&& 0 <= second < 60
}

/// A moment written as `YYYY-MM-DD HH:MM:SS`, each field zero-padded (chrono's
/// `%Y-%m-%d %H:%M:%S` for the years 0 to 9999).
pub open spec fn timestamp_text(year: nat, month: nat, day: nat, hour: nat, minute: nat, second: nat) -> Seq<
    char,
> {
    zero_padded(year, 4) + "-"@ + zero_padded(month, 2) + "-"@ + zero_padded(day, 2) + " "@
        + zero_padded(hour, 2) + ":"@ + zero_padded(minute, 2) + ":"@ + zero_padded(second, 2)
}

/// Formats a moment with chrono's `%Y-%m-%d %H:%M:%S` (building chrono's
/// `NaiveDate` and `NaiveDateTime` from the fields). The contract states what
/// chrono's documentation gives: invalid fields give `None`; a valid moment in
/// the years 0 to 9999 gives the zero-padded fields. For other years (written
/// with a sign by chrono, or outside chrono's range) nothing is stated.
#[verifier::external_body]
fn format_date_time(year: i32, month: u32, day: u32, hour: u32, minute: u32, second: u32) -> (s:
    Option<String>)
    ensures
        !is_valid_date_time(year as int, month as int, day as int, hour as int, minute as int, second as int) ==> s.is_none(),
        is_valid_date_time(year as int, month as int, day as int, hour as int, minute as int, second as int) && 0 <= year <= 9999 ==> s.is_some() && s.unwrap()@ == timestamp_text(year as nat, month as nat, day as nat, hour as nat, minute as nat, second as nat),
{
    chrono::NaiveDate::from_ymd_opt(year, month, day).and_then(|d| d.and_hms_opt(hour, minute, second)).map(
        |t| t.format("%Y-%m-%d %H:%M:%S").to_string(),
    )
}

/// The time a history entry is stored with, `YYYY-MM-DD HH:MM:SS`, from the
/// fields of the local time; `None` for fields that name no moment.
pub fn history_time_text(year: i32, month: u32, day: u32, hour: u32, minute: u32, second: u32) -> (s:
    Option<String>)
    ensures
        !is_valid_date_time(year as int, month as int, day as int, hour as int, minute as int, second as int) ==> s is None,
        is_valid_date_time(year as int, month as int, day as int, hour as int, minute as int, second as int) && 0 <= year <= 9999 ==> (s matches Some(t) && t@ == timestamp_text(year as nat, month as nat, day as nat, hour as nat, minute as nat, second as nat)),
{
    format_date_time(year, month, day, hour, minute, second)
}

/// The history window's title, with the number of entries.
pub fn history_title(count: u64) -> (s: String)
    ensures
        s@ == "📜 历史记录 ("@ + decimal_text(count as int) + ")"@,
{
    let mut s = String::from_str("📜 历史记录 (");
    s.append(unsigned_text(count).as_str());
    s.append(")");
    s
}

/// The image address of an entry's thumbnail.
pub fn thumbnail_uri(id: i64) -> (s: String)
    ensures
        s@ == "bytes://thumb_"@ + decimal_text(id as int),
{
    let mut s = String::from_str("bytes://thumb_");
    s.append(signed_text(id).as_str());
    s
}

/// The scroll-area id of an entry's text.
pub fn entry_scroll_id(id: i64) -> (s: String)
    ensures
        s@ == "scroll_"@ + decimal_text(id as int),
{
    let mut s = String::from_str("scroll_");
    s.append(signed_text(id).as_str());
    s
}

/// The image address of the full-size view of the entry made at `time`.
pub fn full_image_uri(time: &str) -> (s: String)
    ensures
        s@ == "bytes://full_"@ + time@,
{
    let mut s = String::from_str("bytes://full_");
    s.append(time);
    s
}

/// The title of the full-size view of the entry made at `time`.
pub fn preview_title(time: &str) -> (s: String)
    ensures
        s@ == "原始图片 - "@ + time@,
{
    let mut s = String::from_str("原始图片 - ");
    s.append(time);
    s
}

} // verus!
