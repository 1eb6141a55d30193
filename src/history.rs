use vstd::prelude::*;

use crate::text::{copy_opt, joined, owned, text_eq};

verus! {

/// One stored message of a chat history.
#[derive(Clone, Debug)]
pub struct HistoryMessage {
    /// "human", "ai", or "metadata" for the entry that opens a history.
    pub role: String,
    pub timestamp: String,
    pub content: String,
    pub name: Option<String>,
    pub avatar: Option<String>,
}

impl HistoryMessage {
    /// An equal copy.
    pub fn copy(&self) -> (r: Self)
        ensures
            r == *self,
    {
        HistoryMessage {
            role: self.role.clone(),
            timestamp: self.timestamp.clone(),
            content: self.content.clone(),
            name: copy_opt(&self.name),
            avatar: copy_opt(&self.avatar),
        }
    }
}

/// Why an identifier may not name stored history.
#[derive(Clone, Debug)]
pub enum PathError {
    /// No configuration identifier was given.
    EmptyConfUid,
    /// The identifier is not a single plain path component; it is given back.
    Traversal(String),
    /// The identifier holds characters that names may not hold; it is given back.
    InvalidCharacters(String),
    /// The time cannot be written as a date; it is given back.
    TimeOutOfRange(i64),
}

/// What the safe-name pattern says of a text.
pub uninterp spec fn safe_name_pattern(s: Seq<char>) -> bool;

/// Characters that the safe-name pattern accepts whatever else holds.
pub open spec fn in_name_ranges(c: char) -> bool {
    (0x20 <= c as u32 <= 0x7e) || (0xa0 <= c as u32 <= 0xffff)
}

/// Control characters, which the safe-name pattern never accepts.
pub open spec fn is_control(c: char) -> bool {
    (c as u32) < 0x20 || (0x7f <= c as u32 <= 0x9f)
}

/// The anchored pattern of characters allowed in a stored name.
pub const SAFE_NAME_PATTERN: &'static str = "^[\\w\\-_\\u0020-\\u007E\\u00A0-\\uFFFF]+$";

/// Relies on `regex::Regex::is_match` for the pattern `SAFE_NAME_PATTERN`: one or more
/// characters, each a word character or in U+0020..U+007E or U+00A0..U+FFFF. The pattern
/// compiles; a failure to compile would reject every name.
#[verifier::external_body]
fn matches_safe_pattern(s: &str) -> (r: bool)
    ensures
        r == safe_name_pattern(s@),
        s@.len() == 0 ==> !r,
        (s@.len() > 0 && forall|i: int| 0 <= i < s@.len() ==> in_name_ranges(#[trigger] s@[i]))
            ==> r,
        (exists|i: int| 0 <= i < s@.len() && is_control(#[trigger] s@[i])) ==> !r,
{
    match regex::Regex::new(SAFE_NAME_PATTERN) {
        Ok(re) => re.is_match(s),
        Err(_) => false,
    }
}

/// Whether `name` may name a stored file: at most 255 bytes, and matching the safe-name
/// pattern.
pub open spec fn safe_filename_spec(name: &str) -> bool {
    name.len() <= 255 && safe_name_pattern(name@)
}

/// Every character of `s` lies in the ranges that the safe-name pattern always accepts.
pub open spec fn all_in_name_ranges(s: Seq<char>) -> bool {
    forall|i: int| 0 <= i < s.len() ==> in_name_ranges(#[trigger] s[i])
}

/// Whether `filename` may name a stored file.
pub fn is_safe_filename(filename: &str) -> (r: bool)
    ensures
        r == safe_filename_spec(filename),
        filename@.len() == 0 ==> !r,
        (filename@.len() > 0 && filename.len() <= 255 && all_in_name_ranges(filename@)) ==> r,
        (exists|i: int| 0 <= i < filename@.len() && is_control(#[trigger] filename@[i])) ==> !r,
{
    if filename.len() > 255 {
        return false;
    }
    matches_safe_pattern(filename)
}

/// A single path component that names nothing above or beside its directory: not empty,
/// not `.` or `..`, and without a separator.
pub open spec fn plain_component(c: Seq<char>) -> bool {
    &&& c.len() > 0
    &&& c != "."@
    &&& c != ".."@
    &&& forall|i: int| 0 <= i < c.len() ==> #[trigger] c[i] != '/' && c[i] != '\\'
}

/// Whether `c` is a single plain path component.
pub fn is_plain_component(c: &str) -> (r: bool)
    ensures
        r == plain_component(c@),
{
    let n = c.unicode_len();
    if n == 0 || text_eq(c, ".") || text_eq(c, "..") {
        return false;
    }
    let mut i: usize = 0;
    while i < n
        invariant
            n == c@.len(),
            i <= n,
            forall|j: int| 0 <= j < i ==> #[trigger] c@[j] != '/' && c@[j] != '\\',
        decreases n - i,
    {
        let ch = c.get_char(i);
        if ch == '/' || ch == '\\' {
            return false;
        }
        i += 1;
    }
    true
}

/// Whether `component` may be used as a path component as it is.
pub open spec fn accepted(component: &str) -> bool {
    plain_component(component@) && safe_filename_spec(component)
}

/// The error for a rejected component: the first check that it fails, and the component.
pub open spec fn rejection(component: &str, e: PathError) -> bool {
    if !plain_component(component@) {
        e matches PathError::Traversal(c) && c@ == component@
    } else {
        e matches PathError::InvalidCharacters(c) && c@ == component@
    }
}

/// The outcome of sanitizing `component`: itself when accepted, else its rejection. Nothing
/// is ever corrected.
pub open spec fn sanitize_outcome(component: &str, r: Result<String, PathError>) -> bool {
    match r {
        Ok(s) => accepted(component) && s@ == component@,
        Err(e) => !accepted(component) && rejection(component, e),
    }
}

/// Accepts `component` as a path component only if it is one plain, safely named component,
/// and returns it unchanged.
pub fn sanitize_path_component(component: &str) -> (r: Result<String, PathError>)
    ensures
        sanitize_outcome(component, r),
        (plain_component(component@) && component.len() <= 255 && all_in_name_ranges(
            component@,
        )) ==> r is Ok,
        (exists|i: int| 0 <= i < component@.len() && is_control(#[trigger] component@[i]))
            ==> r is Err,
{
    if !is_plain_component(component) {
        return Err(PathError::Traversal(owned(component)));
    }
    if !is_safe_filename(component) {
        return Err(PathError::InvalidCharacters(owned(component)));
    }
    Ok(owned(component))
}

/// The directory that holds the histories of a configuration.
pub open spec fn conf_dir_path(conf: Seq<char>) -> Seq<char> {
    "chat_history/"@ + conf
}

/// The file that holds one history.
pub open spec fn history_file_path(conf: Seq<char>, history: Seq<char>) -> Seq<char> {
    conf_dir_path(conf) + "/"@ + history + ".json"@
}

/// The directory for the histories of `conf_uid`, which must be given and be accepted.
pub fn conf_dir(conf_uid: &str) -> (r: Result<String, PathError>)
    ensures
        conf_uid@.len() == 0 ==> r matches Err(PathError::EmptyConfUid),
        conf_uid@.len() > 0 ==> match r {
            Ok(p) => accepted(conf_uid) && p@ == conf_dir_path(conf_uid@),
            Err(e) => !accepted(conf_uid) && rejection(conf_uid, e),
        },
{
    if conf_uid.unicode_len() == 0 {
        return Err(PathError::EmptyConfUid);
    }
    match sanitize_path_component(conf_uid) {
        Ok(safe) => Ok(joined("chat_history/", safe.as_str())),
        Err(e) => Err(e),
    }
}

/// The file of history `history_uid` of configuration `conf_uid`, both of which must be
/// accepted; it always lies inside the configuration's directory.
pub fn get_safe_history_path(conf_uid: &str, history_uid: &str) -> (r: Result<String, PathError>)
    ensures
        match r {
            Ok(p) => accepted(conf_uid) && accepted(history_uid) && p@ == history_file_path(
                conf_uid@,
                history_uid@,
            ),
            Err(e) => if !accepted(conf_uid) {
                rejection(conf_uid, e)
            } else {
                !accepted(history_uid) && rejection(history_uid, e)
            },
        },
{
    let conf = match sanitize_path_component(conf_uid) {
        Ok(c) => c,
        Err(e) => return Err(e),
    };
    let history = match sanitize_path_component(history_uid) {
        Ok(h) => h,
        Err(e) => return Err(e),
    };
    let p = joined("chat_history/", conf.as_str());
    let p = joined(p.as_str(), "/");
    let p = joined(p.as_str(), history.as_str());
    Ok(joined(p.as_str(), ".json"))
}

/// Whether a stored record only describes its history.
pub open spec fn is_metadata(m: HistoryMessage) -> bool {
    m.role@ == "metadata"@
}

/// The messages of a stored history, in order, without its metadata records.
pub open spec fn visible(records: Seq<HistoryMessage>) -> Seq<HistoryMessage>
    decreases records.len(),
{
    if records.len() == 0 {
        seq![]
    } else if is_metadata(records.last()) {
        visible(records.drop_last())
    } else {
        visible(records.drop_last()).push(records.last())
    }
}

/// The records of a new history: one metadata record stamped `timestamp`.
pub fn new_history_records(timestamp: String) -> (r: Vec<HistoryMessage>)
    ensures
        r@.len() == 1,
        is_metadata(r@[0]),
        r@[0].timestamp == timestamp,
        visible(r@) == Seq::<HistoryMessage>::empty(),
{
    let mut r: Vec<HistoryMessage> = Vec::new();
    r.push(
        HistoryMessage {
            role: owned("metadata"),
            timestamp,
            content: String::new(),
            name: None,
            avatar: None,
        },
    );
    assert(r@.drop_last() =~= Seq::<HistoryMessage>::empty());
    assert(visible(Seq::<HistoryMessage>::empty()) == Seq::<HistoryMessage>::empty());
    r
}

/// Adds a message at the end of a stored history.
pub fn store_message(
    records: &mut Vec<HistoryMessage>,
    role: &str,
    content: &str,
    name: Option<&str>,
    avatar: Option<&str>,
    timestamp: String,
)
    ensures
        final(records)@.len() == old(records)@.len() + 1,
        final(records)@.drop_last() == old(records)@,
        final(records)@.last().role@ == role@,
        final(records)@.last().content@ == content@,
        final(records)@.last().timestamp == timestamp,
        crate::memory::opt_view(final(records)@.last().name) == crate::factory::opt_str(name),
        crate::memory::opt_view(final(records)@.last().avatar) == crate::factory::opt_str(avatar),
{
    let m = HistoryMessage {
        role: owned(role),
        timestamp,
        content: owned(content),
        name: match name {
            Some(n) => Some(owned(n)),
            None => None,
        },
        avatar: match avatar {
            Some(a) => Some(owned(a)),
            None => None,
        },
    };
    records.push(m);
    assert(records@.drop_last() =~= old(records)@);
}

/// The messages of a stored history, in order, without its metadata records.
pub fn get_history(records: &Vec<HistoryMessage>) -> (r: Vec<HistoryMessage>)
    ensures
        r@ == visible(records@),
        forall|i: int| 0 <= i < r@.len() ==> !is_metadata(#[trigger] r@[i]),
{
    let mut out: Vec<HistoryMessage> = Vec::new();
    let mut i: usize = 0;
    while i < records.len()
        invariant
            i <= records@.len(),
            out@ == visible(records@.subrange(0, i as int)),
        decreases records@.len() - i,
    {
        assert(records@.subrange(0, i + 1).drop_last() =~= records@.subrange(0, i as int));
        let m = &records[i];
        if !text_eq(m.role.as_str(), "metadata") {
            out.push(m.copy());
        }
        i += 1;
    }
    assert(records@.subrange(0, records@.len() as int) =~= records@);
    proof {
        lemma_visible_has_no_metadata(records@);
    }
    out
}

/// No metadata record is ever read back.
pub proof fn lemma_visible_has_no_metadata(records: Seq<HistoryMessage>)
    ensures
        forall|i: int| 0 <= i < visible(records).len() ==> !is_metadata(#[trigger] visible(records)[i]),
    decreases records.len(),
{
    if records.len() > 0 {
        lemma_visible_has_no_metadata(records.drop_last());
        let v = visible(records.drop_last());
        if !is_metadata(records.last()) {
            assert forall|i: int| 0 <= i < v.push(records.last()).len() implies !is_metadata(
                #[trigger] v.push(records.last())[i],
            ) by {
                if i < v.len() {
                    assert(v.push(records.last())[i] == v[i]);
                }
            }
        }
    }
}

/// Reading back a history gives exactly the messages written to it, in the order written:
/// the records of a new history, with messages (none of them metadata) added at the end,
/// read back as those messages.
pub proof fn lemma_history_round_trip(header: HistoryMessage, written: Seq<HistoryMessage>)
    requires
        is_metadata(header),
        forall|i: int| 0 <= i < written.len() ==> !is_metadata(#[trigger] written[i]),
    ensures
        visible(seq![header] + written) == written,
    decreases written.len(),
{
    if written.len() == 0 {
        assert(seq![header] + written =~= seq![header]);
        assert(seq![header].drop_last() =~= Seq::<HistoryMessage>::empty());
        assert(visible(Seq::<HistoryMessage>::empty()) == Seq::<HistoryMessage>::empty());
        assert(visible(seq![header]) == visible(seq![header].drop_last()));
    } else {
        let before = written.drop_last();
        assert forall|i: int| 0 <= i < before.len() implies !is_metadata(#[trigger] before[i]) by {
            assert(before[i] == written[i]);
        }
        lemma_history_round_trip(header, before);
        assert((seq![header] + written).drop_last() =~= seq![header] + before);
        assert((seq![header] + written).last() == written.last());
        assert(!is_metadata(written[written.len() - 1]));
        assert(before.push(written.last()) =~= written);
        let all = seq![header] + written;
        assert(visible(all) == visible(all.drop_last()).push(all.last()));
    }
}

/// What the history-name timestamp format makes of a number of seconds since the epoch.
pub uninterp spec fn history_stamp(secs: int) -> Seq<char>;

/// What the RFC 3339 format makes of a number of seconds since the epoch.
pub uninterp spec fn rfc3339_stamp(secs: int) -> Seq<char>;

/// The last second of the year 9999.
pub open spec fn last_supported_second() -> int {
    253402300799
}

/// Relies on `chrono::DateTime::<Utc>::from_timestamp(secs, 0)`, which gives nothing only for
/// an instant outside its range (far wider than years 1970 to 9999), and on its
/// `format("%Y-%m-%d_%H-%M-%S")`.
#[verifier::external_body]
fn format_history_stamp(secs: i64) -> (r: Option<String>)
    ensures
        r matches Some(s) ==> s@ == history_stamp(secs as int),
        0 <= secs <= last_supported_second() ==> r is Some,
{
    chrono::DateTime::<chrono::Utc>::from_timestamp(secs, 0).map(
        |t| t.format("%Y-%m-%d_%H-%M-%S").to_string(),
    )
}

/// Relies on `chrono::DateTime::<Utc>::from_timestamp(secs, 0)`, which gives nothing only for
/// an instant outside its range (far wider than years 1970 to 9999), and on its `to_rfc3339`.
#[verifier::external_body]
fn format_rfc3339(secs: i64) -> (r: Option<String>)
    ensures
        r matches Some(s) ==> s@ == rfc3339_stamp(secs as int),
        0 <= secs <= last_supported_second() ==> r is Some,
{
    chrono::DateTime::<chrono::Utc>::from_timestamp(secs, 0).map(|t| t.to_rfc3339())
}

/// A lower-case hexadecimal digit.
pub open spec fn is_hex_digit(c: char) -> bool {
    ('0' <= c <= '9') || ('a' <= c <= 'f')
}

/// Relies on `uuid::Uuid::new_v4` and its simple format: 32 lower-case hexadecimal digits.
#[verifier::external_body]
fn random_hex_id() -> (r: String)
    ensures
        r@.len() == 32,
        forall|i: int| 0 <= i < 32 ==> is_hex_digit(#[trigger] r@[i]),
{
    uuid::Uuid::new_v4().as_simple().to_string()
}

/// The name of a history made at `stamp` with random part `id`.
pub open spec fn history_uid_of(stamp: Seq<char>, id: Seq<char>) -> Seq<char> {
    stamp + "_"@ + id
}

/// A new history, not yet stored: its name, its file and its records.
#[derive(Clone, Debug)]
pub struct NewHistory {
    pub history_uid: String,
    pub path: String,
    pub records: Vec<HistoryMessage>,
}

/// Prepares a new history of `conf_uid` made at `now_secs`: named after the time and a random
/// hexadecimal part, holding only a metadata record. Nothing is made for an empty `conf_uid`;
/// an unaccepted one, or a time out of range, is an error.
pub fn create_new_history(conf_uid: &str, now_secs: i64) -> (r: Result<Option<NewHistory>, PathError>)
    ensures
        conf_uid@.len() == 0 ==> r matches Ok(None),
        conf_uid@.len() > 0 && !accepted(conf_uid) ==> (r matches Err(e) && rejection(conf_uid, e)),
        r matches Err(PathError::TimeOutOfRange(t)) ==> t == now_secs && accepted(conf_uid),
        conf_uid@.len() > 0 && accepted(conf_uid) && 0 <= now_secs <= last_supported_second()
            ==> r matches Ok(Some(_)),
        r matches Ok(Some(h)) ==> {
            &&& accepted(conf_uid)
            &&& exists|id: Seq<char>|
                id.len() == 32 && #[trigger] history_uid_of(history_stamp(now_secs as int), id)
                    == h.history_uid@
            &&& h.path@ == history_file_path(conf_uid@, h.history_uid@)
            &&& h.records@.len() == 1
            &&& is_metadata(h.records@[0])
            &&& h.records@[0].timestamp@ == rfc3339_stamp(now_secs as int)
        },
{
    if conf_uid.unicode_len() == 0 {
        return Ok(None);
    }
    let dir = match conf_dir(conf_uid) {
        Ok(d) => d,
        Err(e) => return Err(e),
    };
    let stamp = match format_history_stamp(now_secs) {
        Some(s) => s,
        None => return Err(PathError::TimeOutOfRange(now_secs)),
    };
    let created = match format_rfc3339(now_secs) {
        Some(s) => s,
        None => return Err(PathError::TimeOutOfRange(now_secs)),
    };
    let id = random_hex_id();
    let uid = joined(stamp.as_str(), "_");
    let uid = joined(uid.as_str(), id.as_str());
    assert(history_uid_of(history_stamp(now_secs as int), id@) == uid@);
    let path = joined(dir.as_str(), "/");
    let path = joined(path.as_str(), uid.as_str());
    let path = joined(path.as_str(), ".json");
    Ok(Some(NewHistory { history_uid: uid, path, records: new_history_records(created) }))
}

} // verus!
