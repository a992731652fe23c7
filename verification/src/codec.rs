//! Reading entities out of a document tree and writing them back.
//!
//! Reading is tolerant the way the persisted files demand: absent fields
//! take their defaults, changelog values may be strings, numbers,
//! booleans or null (all read as strings), and the older key names
//! `from`, `to` and `time` are accepted for a changelog entry's
//! `old_value`, `new_value` and `timestamp`. Writing always produces the
//! canonical shape, and every writer's contract says that reading its
//! output yields the value written.

use vstd::prelude::*;

use crate::json::{Json, obj_get, scalar_string, spec_obj_get, spec_scalar_string};
use crate::text::{str_eq, spec_u8_of_digits, parse_u8_digits, u8_to_dec};
use crate::todo::{
    ChangeEntry, ChangeEntryV, Changelog, Quadrant, Tab, Todo, TodoV, opt_view,
    spec_tab_str, spec_quadrant_str,
};
use crate::routine::{Routine, RoutineV};
use crate::DbError;

verus! {

/// A parse failure naming the field it tripped over.
fn bad_field(key: &str) -> (r: DbError)
    ensures
        r is Parse,
{
    DbError::Parse(String::from_str("unexpected value for field: ").concat(key))
}

/// A required string field: present and a string, else nothing.
pub open spec fn spec_req_string(f: Seq<(String, Json)>, key: Seq<char>) -> Option<Seq<char>> {
    match spec_obj_get(f, key) {
        Some(Json::Str(s)) => Some(s@),
        _ => None,
    }
}

/// A string field with a default: absent reads as empty.
pub open spec fn spec_def_string(f: Seq<(String, Json)>, key: Seq<char>) -> Option<Seq<char>> {
    match spec_obj_get(f, key) {
        Some(Json::Str(s)) => Some(s@),
        None => Some(Seq::<char>::empty()),
        _ => None,
    }
}

/// An optional string field: absent or null reads as nothing-present.
pub open spec fn spec_opt_string(f: Seq<(String, Json)>, key: Seq<char>) -> Option<
    Option<Seq<char>>,
> {
    match spec_obj_get(f, key) {
        Some(Json::Str(s)) => Some(Some(s@)),
        Some(Json::Null) => Some(None),
        None => Some(None),
        _ => None,
    }
}

/// A boolean field with a default: absent reads as false.
pub open spec fn spec_def_bool(f: Seq<(String, Json)>, key: Seq<char>) -> Option<bool> {
    match spec_obj_get(f, key) {
        Some(Json::Bool(b)) => Some(b),
        None => Some(false),
        _ => None,
    }
}

/// The progress field: absent reads as zero; a number must be a plain
/// decimal fitting a `u8`.
pub open spec fn spec_def_progress(f: Seq<(String, Json)>, key: Seq<char>) -> Option<u8> {
    match spec_obj_get(f, key) {
        Some(Json::Num(n)) => spec_u8_of_digits(n@),
        None => Some(0u8),
        _ => None,
    }
}

/// The tab a wire name denotes, with no fallback: an unknown name is a
/// shape error.
pub open spec fn spec_tab_strict(s: Seq<char>) -> Option<Tab> {
    if s == "today"@ {
        Some(Tab::Today)
    } else if s == "week"@ {
        Some(Tab::Week)
    } else if s == "month"@ {
        Some(Tab::Month)
    } else {
        None
    }
}

/// The quadrant a wire name denotes, with no fallback.
pub open spec fn spec_quadrant_strict(s: Seq<char>) -> Option<Quadrant> {
    if s == "important-urgent"@ {
        Some(Quadrant::ImportantUrgent)
    } else if s == "important-not-urgent"@ {
        Some(Quadrant::ImportantNotUrgent)
    } else if s == "not-important-urgent"@ {
        Some(Quadrant::NotImportantUrgent)
    } else if s == "not-important-not-urgent"@ {
        Some(Quadrant::NotImportantNotUrgent)
    } else {
        None
    }
}

/// The tab field: absent reads as today; present must name a tab.
pub open spec fn spec_def_tab(f: Seq<(String, Json)>, key: Seq<char>) -> Option<Tab> {
    match spec_obj_get(f, key) {
        Some(Json::Str(s)) => spec_tab_strict(s@),
        None => Some(Tab::Today),
        _ => None,
    }
}

/// The quadrant field: absent reads as not-important-not-urgent;
/// present must name a quadrant.
pub open spec fn spec_def_quadrant(f: Seq<(String, Json)>, key: Seq<char>) -> Option<Quadrant> {
    match spec_obj_get(f, key) {
        Some(Json::Str(s)) => spec_quadrant_strict(s@),
        None => Some(Quadrant::NotImportantNotUrgent),
        _ => None,
    }
}

/// A changelog value, under its key or an older alias of it, read
/// loosely as a string; absent under both reads as empty.
pub open spec fn spec_alias_scalar(
    f: Seq<(String, Json)>,
    key: Seq<char>,
    alias: Seq<char>,
) -> Option<Seq<char>> {
    match spec_obj_get(f, key) {
        Some(v) => spec_scalar_string(v),
        None => match spec_obj_get(f, alias) {
            Some(v) => spec_scalar_string(v),
            None => Some(Seq::<char>::empty()),
        },
    }
}

/// A string field under its key or an older alias of it; absent under
/// both reads as empty.
pub open spec fn spec_alias_string(
    f: Seq<(String, Json)>,
    key: Seq<char>,
    alias: Seq<char>,
) -> Option<Seq<char>> {
    match spec_obj_get(f, key) {
        Some(Json::Str(s)) => Some(s@),
        Some(_) => None,
        None => match spec_obj_get(f, alias) {
            Some(Json::Str(s)) => Some(s@),
            Some(_) => None,
            None => Some(Seq::<char>::empty()),
        },
    }
}

/// A changelog entry read out of a document value.
pub open spec fn spec_entry_of_json(j: Json) -> Option<ChangeEntryV> {
    match j {
        Json::Obj(fields) => {
            let f = fields@;
            match spec_def_string(f, "field"@) {
                Some(field) => match spec_def_string(f, "label"@) {
                    Some(label) => match spec_alias_scalar(f, "old_value"@, "from"@) {
                        Some(old_value) => match spec_alias_scalar(f, "new_value"@, "to"@) {
                            Some(new_value) => match spec_alias_string(f, "timestamp"@, "time"@) {
                                Some(timestamp) => Some(
                                    ChangeEntryV { field, label, old_value, new_value, timestamp },
                                ),
                                None => None,
                            },
                            None => None,
                        },
                        None => None,
                    },
                    None => None,
                },
                None => None,
            }
        },
        _ => None,
    }
}

/// Reads a required string field, as `spec_req_string` says.
fn req_string(fields: &Vec<(String, Json)>, key: &str) -> (r: Result<String, DbError>)
    ensures
        match r {
            Ok(s) => spec_req_string(fields@, key@) == Some(s@),
            Err(e) => spec_req_string(fields@, key@) is None && e is Parse,
        },
{
    match obj_get(fields, key) {
        Some(Json::Str(s)) => Ok(s.clone()),
        _ => Err(bad_field(key)),
    }
}

/// Reads a defaulted string field, as `spec_def_string` says.
fn def_string(fields: &Vec<(String, Json)>, key: &str) -> (r: Result<String, DbError>)
    ensures
        match r {
            Ok(s) => spec_def_string(fields@, key@) == Some(s@),
            Err(e) => spec_def_string(fields@, key@) is None && e is Parse,
        },
{
    match obj_get(fields, key) {
        Some(Json::Str(s)) => Ok(s.clone()),
        None => Ok(String::new()),
        _ => Err(bad_field(key)),
    }
}

/// Reads an optional string field, as `spec_opt_string` says.
fn opt_string(fields: &Vec<(String, Json)>, key: &str) -> (r: Result<Option<String>, DbError>)
    ensures
        match r {
            Ok(o) => spec_opt_string(fields@, key@) == Some(opt_view(o)),
            Err(e) => spec_opt_string(fields@, key@) is None && e is Parse,
        },
{
    match obj_get(fields, key) {
        Some(Json::Str(s)) => Ok(Some(s.clone())),
        Some(Json::Null) => Ok(None),
        None => Ok(None),
        _ => Err(bad_field(key)),
    }
}

/// Reads a defaulted boolean field, as `spec_def_bool` says.
fn def_bool(fields: &Vec<(String, Json)>, key: &str) -> (r: Result<bool, DbError>)
    ensures
        match r {
            Ok(b) => spec_def_bool(fields@, key@) == Some(b),
            Err(e) => spec_def_bool(fields@, key@) is None && e is Parse,
        },
{
    match obj_get(fields, key) {
        Some(Json::Bool(b)) => Ok(*b),
        None => Ok(false),
        _ => Err(bad_field(key)),
    }
}

/// Reads the progress field, as `spec_def_progress` says.
fn def_progress(fields: &Vec<(String, Json)>, key: &str) -> (r: Result<u8, DbError>)
    ensures
        match r {
            Ok(p) => spec_def_progress(fields@, key@) == Some(p),
            Err(e) => spec_def_progress(fields@, key@) is None && e is Parse,
        },
{
    match obj_get(fields, key) {
        Some(Json::Num(n)) => match parse_u8_digits(n.as_str()) {
            Some(p) => Ok(p),
            None => Err(bad_field(key)),
        },
        None => Ok(0),
        _ => Err(bad_field(key)),
    }
}

/// Reads the tab field, as `spec_def_tab` says.
fn def_tab(fields: &Vec<(String, Json)>, key: &str) -> (r: Result<Tab, DbError>)
    ensures
        match r {
            Ok(t) => spec_def_tab(fields@, key@) == Some(t),
            Err(e) => spec_def_tab(fields@, key@) is None && e is Parse,
        },
{
    match obj_get(fields, key) {
        Some(Json::Str(s)) => {
            if str_eq(s.as_str(), "today") {
                Ok(Tab::Today)
            } else if str_eq(s.as_str(), "week") {
                Ok(Tab::Week)
            } else if str_eq(s.as_str(), "month") {
                Ok(Tab::Month)
            } else {
                Err(bad_field(key))
            }
        },
        None => Ok(Tab::Today),
        _ => Err(bad_field(key)),
    }
}

/// Reads the quadrant field, as `spec_def_quadrant` says.
fn def_quadrant(fields: &Vec<(String, Json)>, key: &str) -> (r: Result<Quadrant, DbError>)
    ensures
        match r {
            Ok(q) => spec_def_quadrant(fields@, key@) == Some(q),
            Err(e) => spec_def_quadrant(fields@, key@) is None && e is Parse,
        },
{
    match obj_get(fields, key) {
        Some(Json::Str(s)) => {
            if str_eq(s.as_str(), "important-urgent") {
                Ok(Quadrant::ImportantUrgent)
            } else if str_eq(s.as_str(), "important-not-urgent") {
                Ok(Quadrant::ImportantNotUrgent)
            } else if str_eq(s.as_str(), "not-important-urgent") {
                Ok(Quadrant::NotImportantUrgent)
            } else if str_eq(s.as_str(), "not-important-not-urgent") {
                Ok(Quadrant::NotImportantNotUrgent)
            } else {
                Err(bad_field(key))
            }
        },
        None => Ok(Quadrant::NotImportantNotUrgent),
        _ => Err(bad_field(key)),
    }
}

/// Reads a changelog value under its key or alias, as
/// `spec_alias_scalar` says.
fn alias_scalar(fields: &Vec<(String, Json)>, key: &str, alias: &str) -> (r: Result<
    String,
    DbError,
>)
    ensures
        match r {
            Ok(s) => spec_alias_scalar(fields@, key@, alias@) == Some(s@),
            Err(e) => spec_alias_scalar(fields@, key@, alias@) is None && e is Parse,
        },
{
    match obj_get(fields, key) {
        Some(v) => match scalar_string(v) {
            Some(s) => Ok(s),
            None => Err(bad_field(key)),
        },
        None => match obj_get(fields, alias) {
            Some(v) => match scalar_string(v) {
                Some(s) => Ok(s),
                None => Err(bad_field(key)),
            },
            None => Ok(String::new()),
        },
    }
}

/// Reads a string field under its key or alias, as `spec_alias_string`
/// says.
fn alias_string(fields: &Vec<(String, Json)>, key: &str, alias: &str) -> (r: Result<
    String,
    DbError,
>)
    ensures
        match r {
            Ok(s) => spec_alias_string(fields@, key@, alias@) == Some(s@),
            Err(e) => spec_alias_string(fields@, key@, alias@) is None && e is Parse,
        },
{
    match obj_get(fields, key) {
        Some(Json::Str(s)) => Ok(s.clone()),
        Some(_) => Err(bad_field(key)),
        None => match obj_get(fields, alias) {
            Some(Json::Str(s)) => Ok(s.clone()),
            Some(_) => Err(bad_field(key)),
            None => Ok(String::new()),
        },
    }
}

/// Reads a changelog entry, as `spec_entry_of_json` says.
pub fn entry_of_json(j: &Json) -> (r: Result<ChangeEntry, DbError>)
    ensures
        match r {
            Ok(e) => spec_entry_of_json(*j) == Some(e@),
            Err(e) => spec_entry_of_json(*j) is None && e is Parse,
        },
{
    match j {
        Json::Obj(fields) => {
            let field = match def_string(fields, "field") {
                Ok(s) => s,
                Err(e) => return Err(e),
            };
            let label = match def_string(fields, "label") {
                Ok(s) => s,
                Err(e) => return Err(e),
            };
            let old_value = match alias_scalar(fields, "old_value", "from") {
                Ok(s) => s,
                Err(e) => return Err(e),
            };
            let new_value = match alias_scalar(fields, "new_value", "to") {
                Ok(s) => s,
                Err(e) => return Err(e),
            };
            let timestamp = match alias_string(fields, "timestamp", "time") {
                Ok(s) => s,
                Err(e) => return Err(e),
            };
            Ok(ChangeEntry { field, label, old_value, new_value, timestamp })
        },
        _ => Err(bad_field("changelog")),
    }
}

/// Writes a changelog entry; reading the result gives the entry back.
pub fn entry_to_json(e: &ChangeEntry) -> (j: Json)
    ensures
        spec_entry_of_json(j) == Some(e@),
{
    let mut fields: Vec<(String, Json)> = Vec::new();
    fields.push((String::from_str("field"), Json::Str(e.field.clone())));
    fields.push((String::from_str("label"), Json::Str(e.label.clone())));
    fields.push((String::from_str("old_value"), Json::Str(e.old_value.clone())));
    fields.push((String::from_str("new_value"), Json::Str(e.new_value.clone())));
    fields.push((String::from_str("timestamp"), Json::Str(e.timestamp.clone())));
    let ghost fv = fields@;
    let j = Json::Obj(fields);
    proof {
        reveal_with_fuel(crate::json::spec_obj_get, 7);
        reveal_strlit("field");
        reveal_strlit("label");
        reveal_strlit("old_value");
        reveal_strlit("new_value");
        reveal_strlit("timestamp");
        reveal_strlit("from");
        reveal_strlit("to");
        reveal_strlit("time");
        assert("field"@.len() == 5 && "label"@.len() == 5 && "old_value"@.len() == 9
            && "new_value"@.len() == 9 && "timestamp"@.len() == 9);
        assert("field"@ != "label"@) by {
            assert("field"@[0] == 'f' && "label"@[0] == 'l');
        }
        assert("old_value"@ != "new_value"@) by {
            assert("old_value"@[0] == 'o' && "new_value"@[0] == 'n');
        }
        assert("timestamp"@ != "old_value"@) by {
            assert("timestamp"@[0] == 't' && "old_value"@[0] == 'o');
        }
        assert("timestamp"@ != "new_value"@) by {
            assert("timestamp"@[0] == 't' && "new_value"@[0] == 'n');
        }
        assert(fv.len() == 5);
        assert(fv.skip(1)[0] == fv[1]);
        assert(fv.skip(2)[0] == fv[2]);
        assert(fv.skip(3)[0] == fv[3]);
        assert(fv.skip(4)[0] == fv[4]);
        assert(fv.skip(1).skip(1) =~= fv.skip(2));
        assert(fv.skip(2).skip(1) =~= fv.skip(3));
        assert(fv.skip(3).skip(1) =~= fv.skip(4));
        assert(fv.skip(4).skip(1) =~= fv.skip(5));
        assert(spec_obj_get(fv, "field"@) == Some(fv[0].1));
        assert(spec_obj_get(fv, "label"@) == Some(fv[1].1));
        assert(spec_obj_get(fv, "old_value"@) == Some(fv[2].1));
        assert(spec_obj_get(fv, "new_value"@) == Some(fv[3].1));
        assert(spec_obj_get(fv, "timestamp"@) == Some(fv[4].1));
        assert(spec_def_string(fv, "field"@) == Some(e.field@));
        assert(spec_def_string(fv, "label"@) == Some(e.label@));
        assert(spec_alias_scalar(fv, "old_value"@, "from"@) == Some(e.old_value@));
        assert(spec_alias_scalar(fv, "new_value"@, "to"@) == Some(e.new_value@));
        assert(spec_alias_string(fv, "timestamp"@, "time"@) == Some(e.timestamp@));
    }
    j
}

/// A list of changelog entries read out of document values; every
/// element must read as an entry.
pub open spec fn spec_entry_seq(elems: Seq<Json>) -> Option<Seq<ChangeEntryV>>
    decreases elems.len(),
{
    if elems.len() == 0 {
        Some(Seq::<ChangeEntryV>::empty())
    } else {
        match spec_entry_seq(elems.drop_last()) {
            Some(s) => match spec_entry_of_json(elems.last()) {
                Some(e) => Some(s.push(e)),
                None => None,
            },
            None => None,
        }
    }
}

/// A list of strings read out of document values; every element must be
/// a string.
pub open spec fn spec_str_seq(elems: Seq<Json>) -> Option<Seq<Seq<char>>>
    decreases elems.len(),
{
    if elems.len() == 0 {
        Some(Seq::<Seq<char>>::empty())
    } else {
        match spec_str_seq(elems.drop_last()) {
            Some(s) => match elems.last() {
                Json::Str(x) => Some(s.push(x@)),
                _ => None,
            },
            None => None,
        }
    }
}

/// Reads a list of changelog entries, as `spec_entry_seq` says.
pub fn entries_of_json(elems: &Vec<Json>) -> (r: Result<Vec<ChangeEntry>, DbError>)
    ensures
        match r {
            Ok(v) => spec_entry_seq(elems@) == Some(v@.map_values(|e: ChangeEntry| e@)),
            Err(e) => spec_entry_seq(elems@) is None && e is Parse,
        },
{
    let mut out: Vec<ChangeEntry> = Vec::new();
    let mut i: usize = 0;
    proof {
        assert(elems@.take(0) =~= Seq::<Json>::empty());
        assert(out@.map_values(|e: ChangeEntry| e@) =~= Seq::<ChangeEntryV>::empty());
    }
    while i < elems.len()
        invariant
            0 <= i <= elems@.len(),
            spec_entry_seq(elems@.take(i as int)) == Some(out@.map_values(|e: ChangeEntry| e@)),
        decreases elems@.len() - i,
    {
        let entry = match entry_of_json(&elems[i]) {
            Ok(e) => e,
            Err(e) => {
                proof {
                    lemma_entry_seq_bad(elems@, i as int);
                }
                return Err(e);
            },
        };
        out.push(entry);
        proof {
            assert(elems@.take(i + 1).drop_last() =~= elems@.take(i as int));
            assert(elems@.take(i + 1).last() == elems@[i as int]);
            assert(out@.map_values(|e: ChangeEntry| e@) =~= out@.drop_last().map_values(
                |e: ChangeEntry| e@,
            ).push(out@.last()@));
        }
        i += 1;
    }
    proof {
        assert(elems@.take(elems@.len() as int) =~= elems@);
    }
    Ok(out)
}

/// A list with an unreadable element reads as nothing.
proof fn lemma_entry_seq_bad(elems: Seq<Json>, i: int)
    requires
        0 <= i < elems.len(),
        spec_entry_of_json(elems[i]) is None,
    ensures
        spec_entry_seq(elems) is None,
    decreases elems.len(),
{
    if elems.len() > 0 && i < elems.len() - 1 {
        lemma_entry_seq_bad(elems.drop_last(), i);
    }
}

/// Reads a list of strings, as `spec_str_seq` says.
pub fn strings_of_json(elems: &Vec<Json>) -> (r: Result<Vec<String>, DbError>)
    ensures
        match r {
            Ok(v) => spec_str_seq(elems@) == Some(v@.map_values(|s: String| s@)),
            Err(e) => spec_str_seq(elems@) is None && e is Parse,
        },
{
    let mut out: Vec<String> = Vec::new();
    let mut i: usize = 0;
    proof {
        assert(elems@.take(0) =~= Seq::<Json>::empty());
        assert(out@.map_values(|s: String| s@) =~= Seq::<Seq<char>>::empty());
    }
    while i < elems.len()
        invariant
            0 <= i <= elems@.len(),
            spec_str_seq(elems@.take(i as int)) == Some(out@.map_values(|s: String| s@)),
        decreases elems@.len() - i,
    {
        let s = match &elems[i] {
            Json::Str(s) => s.clone(),
            _ => {
                proof {
                    lemma_str_seq_bad(elems@, i as int);
                }
                return Err(bad_field("tags"));
            },
        };
        out.push(s);
        proof {
            assert(elems@.take(i + 1).drop_last() =~= elems@.take(i as int));
            assert(elems@.take(i + 1).last() == elems@[i as int]);
            assert(out@.map_values(|s: String| s@) =~= out@.drop_last().map_values(
                |s: String| s@,
            ).push(out@.last()@));
        }
        i += 1;
    }
    proof {
        assert(elems@.take(elems@.len() as int) =~= elems@);
    }
    Ok(out)
}

/// A list with a non-string element reads as nothing.
proof fn lemma_str_seq_bad(elems: Seq<Json>, i: int)
    requires
        0 <= i < elems.len(),
        !(elems[i] is Str),
    ensures
        spec_str_seq(elems) is None,
    decreases elems.len(),
{
    if elems.len() > 0 && i < elems.len() - 1 {
        lemma_str_seq_bad(elems.drop_last(), i);
    }
}

/// Writes a list of changelog entries; reading the result gives the
/// list back.
pub fn entries_to_json(entries: &Vec<ChangeEntry>) -> (elems: Vec<Json>)
    ensures
        spec_entry_seq(elems@) == Some(entries@.map_values(|e: ChangeEntry| e@)),
{
    let mut out: Vec<Json> = Vec::new();
    let mut i: usize = 0;
    proof {
        assert(out@ =~= Seq::<Json>::empty());
        assert(entries@.take(0).map_values(|e: ChangeEntry| e@) =~= Seq::<ChangeEntryV>::empty());
    }
    while i < entries.len()
        invariant
            0 <= i <= entries@.len(),
            spec_entry_seq(out@) == Some(
                entries@.take(i as int).map_values(|e: ChangeEntry| e@),
            ),
        decreases entries@.len() - i,
    {
        let j = entry_to_json(&entries[i]);
        let ghost prev = out@;
        out.push(j);
        proof {
            assert(out@.drop_last() =~= prev);
            assert(entries@.take(i + 1).map_values(|e: ChangeEntry| e@) =~= entries@.take(
                i as int,
            ).map_values(|e: ChangeEntry| e@).push(entries@[i as int]@));
        }
        i += 1;
    }
    proof {
        assert(entries@.take(entries@.len() as int) =~= entries@);
    }
    out
}

/// Writes a list of strings; reading the result gives the list back.
pub fn strings_to_json(tags: &Vec<String>) -> (elems: Vec<Json>)
    ensures
        spec_str_seq(elems@) == Some(tags@.map_values(|s: String| s@)),
{
    let mut out: Vec<Json> = Vec::new();
    let mut i: usize = 0;
    proof {
        assert(out@ =~= Seq::<Json>::empty());
        assert(tags@.take(0).map_values(|s: String| s@) =~= Seq::<Seq<char>>::empty());
    }
    while i < tags.len()
        invariant
            0 <= i <= tags@.len(),
            spec_str_seq(out@) == Some(tags@.take(i as int).map_values(|s: String| s@)),
        decreases tags@.len() - i,
    {
        let ghost prev = out@;
        out.push(Json::Str(tags[i].clone()));
        proof {
            assert(out@.drop_last() =~= prev);
            assert(tags@.take(i + 1).map_values(|s: String| s@) =~= tags@.take(i as int).map_values(
                |s: String| s@,
            ).push(tags@[i as int]@));
        }
        i += 1;
    }
    proof {
        assert(tags@.take(tags@.len() as int) =~= tags@);
    }
    out
}

/// A todo read out of a document value: identifier, title and both
/// timestamps must be present; everything else takes its default when
/// absent; an ill-typed field is a shape error.
pub open spec fn spec_todo_of_json(j: Json) -> Option<TodoV> {
    match j {
        Json::Obj(fields) => {
            let f = fields@;
            match spec_req_string(f, "id"@) {
                Some(id) => match spec_req_string(f, "text"@) {
                    Some(text) => match spec_def_string(f, "content"@) {
                        Some(content) => match spec_def_tab(f, "tab"@) {
                            Some(tab) => match spec_def_quadrant(f, "quadrant"@) {
                                Some(quadrant) => match spec_def_progress(f, "progress"@) {
                                    Some(progress) => match spec_def_bool(f, "completed"@) {
                                        Some(completed) => match spec_opt_string(
                                            f,
                                            "completed_at"@,
                                        ) {
                                            Some(completed_at) => match spec_opt_string(
                                                f,
                                                "due_date"@,
                                            ) {
                                                Some(due_date) => match spec_def_string(
                                                    f,
                                                    "assignee"@,
                                                ) {
                                                    Some(assignee) => spec_todo_of_json_rest(
                                                        f,
                                                        id,
                                                        text,
                                                        content,
                                                        tab,
                                                        quadrant,
                                                        progress,
                                                        completed,
                                                        completed_at,
                                                        due_date,
                                                        assignee,
                                                    ),
                                                    None => None,
                                                },
                                                None => None,
                                            },
                                            None => None,
                                        },
                                        None => None,
                                    },
                                    None => None,
                                },
                                None => None,
                            },
                            None => None,
                        },
                        None => None,
                    },
                    None => None,
                },
                None => None,
            }
        },
        _ => None,
    }
}

/// The tail of `spec_todo_of_json`: tags, creation and update times,
/// changelog, deletion state.
pub open spec fn spec_todo_of_json_rest(
    f: Seq<(String, Json)>,
    id: Seq<char>,
    text: Seq<char>,
    content: Seq<char>,
    tab: Tab,
    quadrant: Quadrant,
    progress: u8,
    completed: bool,
    completed_at: Option<Seq<char>>,
    due_date: Option<Seq<char>>,
    assignee: Seq<char>,
) -> Option<TodoV> {
    let tags = match spec_obj_get(f, "tags"@) {
        Some(Json::Arr(elems)) => spec_str_seq(elems@),
        None => Some(Seq::<Seq<char>>::empty()),
        _ => None,
    };
    let changelog = match spec_obj_get(f, "changelog"@) {
        Some(Json::Arr(elems)) => spec_entry_seq(elems@),
        None => Some(Seq::<ChangeEntryV>::empty()),
        _ => None,
    };
    match tags {
        Some(tags) => match spec_req_string(f, "created_at"@) {
            Some(created_at) => match spec_req_string(f, "updated_at"@) {
                Some(updated_at) => match changelog {
                    Some(changelog) => match spec_def_bool(f, "deleted"@) {
                        Some(deleted) => match spec_opt_string(f, "deleted_at"@) {
                            Some(deleted_at) => Some(
                                TodoV {
                                    id,
                                    text,
                                    content,
                                    tab,
                                    quadrant,
                                    progress,
                                    completed,
                                    completed_at,
                                    due_date,
                                    assignee,
                                    tags,
                                    created_at,
                                    updated_at,
                                    changelog,
                                    deleted,
                                    deleted_at,
                                },
                            ),
                            None => None,
                        },
                        None => None,
                    },
                    None => None,
                },
                None => None,
            },
            None => None,
        },
        None => None,
    }
}

/// Reads a todo, as `spec_todo_of_json` says.
pub fn todo_of_json(j: &Json) -> (r: Result<Todo, DbError>)
    ensures
        match r {
            Ok(t) => spec_todo_of_json(*j) == Some(t@),
            Err(e) => spec_todo_of_json(*j) is None && e is Parse,
        },
{
    let fields = match j {
        Json::Obj(fields) => fields,
        _ => {
            return Err(bad_field("items"));
        },
    };
    let id = match req_string(fields, "id") {
        Ok(s) => s,
        Err(e) => return Err(e),
    };
    let text = match req_string(fields, "text") {
        Ok(s) => s,
        Err(e) => return Err(e),
    };
    let content = match def_string(fields, "content") {
        Ok(s) => s,
        Err(e) => return Err(e),
    };
    let tab = match def_tab(fields, "tab") {
        Ok(t) => t,
        Err(e) => return Err(e),
    };
    let quadrant = match def_quadrant(fields, "quadrant") {
        Ok(q) => q,
        Err(e) => return Err(e),
    };
    let progress = match def_progress(fields, "progress") {
        Ok(p) => p,
        Err(e) => return Err(e),
    };
    let completed = match def_bool(fields, "completed") {
        Ok(b) => b,
        Err(e) => return Err(e),
    };
    let completed_at = match opt_string(fields, "completed_at") {
        Ok(o) => o,
        Err(e) => return Err(e),
    };
    let due_date = match opt_string(fields, "due_date") {
        Ok(o) => o,
        Err(e) => return Err(e),
    };
    let assignee = match def_string(fields, "assignee") {
        Ok(s) => s,
        Err(e) => return Err(e),
    };
    let tags = match obj_get(fields, "tags") {
        Some(Json::Arr(elems)) => match strings_of_json(elems) {
            Ok(v) => v,
            Err(e) => return Err(e),
        },
        None => Vec::new(),
        _ => {
            return Err(bad_field("tags"));
        },
    };
    let created_at = match req_string(fields, "created_at") {
        Ok(s) => s,
        Err(e) => return Err(e),
    };
    let updated_at = match req_string(fields, "updated_at") {
        Ok(s) => s,
        Err(e) => return Err(e),
    };
    let changelog_entries = match obj_get(fields, "changelog") {
        Some(Json::Arr(elems)) => match entries_of_json(elems) {
            Ok(v) => v,
            Err(e) => return Err(e),
        },
        None => Vec::new(),
        _ => {
            return Err(bad_field("changelog"));
        },
    };
    let deleted = match def_bool(fields, "deleted") {
        Ok(b) => b,
        Err(e) => return Err(e),
    };
    let deleted_at = match opt_string(fields, "deleted_at") {
        Ok(o) => o,
        Err(e) => return Err(e),
    };
    let changelog = Changelog::from_entries(changelog_entries);
    let t = Todo {
        id,
        text,
        content,
        tab,
        quadrant,
        progress,
        completed,
        completed_at,
        due_date,
        assignee,
        tags,
        created_at,
        updated_at,
        changelog,
        deleted,
        deleted_at,
    };
    proof {
        if t.tags@.len() == 0 {
            assert(t.tags@.map_values(|s: String| s@) =~= Seq::<Seq<char>>::empty());
        }
        if t.changelog@.len() == 0 {
            assert(t.changelog@ =~= Seq::<ChangeEntryV>::empty());
        }
    }
    Ok(t)
}

/// An optional string written as a value: the string itself, or null.
fn opt_to_json(o: &Option<String>) -> (j: Json)
    ensures
        match o {
            Some(s) => j == Json::Str(*s) || (j matches Json::Str(x) && x@ == s@),
            None => j is Null,
        },
{
    match o {
        Some(s) => Json::Str(s.clone()),
        None => Json::Null,
    }
}

/// Writes a todo in the canonical shape; reading the result gives the
/// todo back.
#[verifier::rlimit(100)]
#[verifier::spinoff_prover]
pub fn todo_to_json(t: &Todo) -> (j: Json)
    ensures
        spec_todo_of_json(j) == Some(t@),
{
    let mut fields: Vec<(String, Json)> = Vec::new();
    fields.push((String::from_str("id"), Json::Str(t.id.clone())));
    fields.push((String::from_str("text"), Json::Str(t.text.clone())));
    fields.push((String::from_str("content"), Json::Str(t.content.clone())));
    fields.push((String::from_str("tab"), Json::Str(String::from_str(t.tab.as_str()))));
    fields.push((String::from_str("quadrant"), Json::Str(String::from_str(t.quadrant.as_str()))));
    fields.push((String::from_str("progress"), Json::Num(u8_to_dec(t.progress))));
    fields.push((String::from_str("completed"), Json::Bool(t.completed)));
    fields.push((String::from_str("completed_at"), opt_to_json(&t.completed_at)));
    fields.push((String::from_str("due_date"), opt_to_json(&t.due_date)));
    fields.push((String::from_str("assignee"), Json::Str(t.assignee.clone())));
    fields.push((String::from_str("tags"), Json::Arr(strings_to_json(&t.tags))));
    fields.push((String::from_str("created_at"), Json::Str(t.created_at.clone())));
    fields.push((String::from_str("updated_at"), Json::Str(t.updated_at.clone())));
    fields.push((String::from_str("changelog"), Json::Arr(entries_to_json(t.changelog.entries()))));
    fields.push((String::from_str("deleted"), Json::Bool(t.deleted)));
    fields.push((String::from_str("deleted_at"), opt_to_json(&t.deleted_at)));
    let ghost fv = fields@;
    let j = Json::Obj(fields);
    proof {
        reveal_with_fuel(crate::json::spec_obj_get, 18);
        reveal_strlit("id");
        reveal_strlit("text");
        reveal_strlit("content");
        reveal_strlit("tab");
        reveal_strlit("quadrant");
        reveal_strlit("progress");
        reveal_strlit("completed");
        reveal_strlit("completed_at");
        reveal_strlit("due_date");
        reveal_strlit("assignee");
        reveal_strlit("tags");
        reveal_strlit("created_at");
        reveal_strlit("updated_at");
        reveal_strlit("changelog");
        reveal_strlit("deleted");
        reveal_strlit("deleted_at");
        reveal_strlit("today");
        reveal_strlit("week");
        reveal_strlit("month");
        reveal_strlit("important-urgent");
        reveal_strlit("important-not-urgent");
        reveal_strlit("not-important-urgent");
        reveal_strlit("not-important-not-urgent");
        assert("id"@.len() == 2 && "text"@.len() == 4 && "content"@.len() == 7 && "tab"@.len() == 3
            && "quadrant"@.len() == 8 && "progress"@.len() == 8 && "completed"@.len() == 9
            && "completed_at"@.len() == 12 && "due_date"@.len() == 8 && "assignee"@.len() == 8
            && "tags"@.len() == 4 && "created_at"@.len() == 10 && "updated_at"@.len() == 10
            && "changelog"@.len() == 9 && "deleted"@.len() == 7 && "deleted_at"@.len() == 10);
        assert("text"@ != "tags"@) by {
            assert("text"@[1] == 'e' && "tags"@[1] == 'a');
        }
        assert("content"@ != "deleted"@) by {
            assert("content"@[0] == 'c' && "deleted"@[0] == 'd');
        }
        assert("quadrant"@ != "progress"@) by {
            assert("quadrant"@[0] == 'q' && "progress"@[0] == 'p');
        }
        assert("quadrant"@ != "due_date"@) by {
            assert("quadrant"@[0] == 'q' && "due_date"@[0] == 'd');
        }
        assert("quadrant"@ != "assignee"@) by {
            assert("quadrant"@[0] == 'q' && "assignee"@[0] == 'a');
        }
        assert("progress"@ != "due_date"@) by {
            assert("progress"@[0] == 'p' && "due_date"@[0] == 'd');
        }
        assert("progress"@ != "assignee"@) by {
            assert("progress"@[0] == 'p' && "assignee"@[0] == 'a');
        }
        assert("due_date"@ != "assignee"@) by {
            assert("due_date"@[0] == 'd' && "assignee"@[0] == 'a');
        }
        assert("completed"@ != "changelog"@) by {
            assert("completed"@[1] == 'o' && "changelog"@[1] == 'h');
        }
        assert("created_at"@ != "updated_at"@) by {
            assert("created_at"@[0] == 'c' && "updated_at"@[0] == 'u');
        }
        assert("created_at"@ != "deleted_at"@) by {
            assert("created_at"@[0] == 'c' && "deleted_at"@[0] == 'd');
        }
        assert("updated_at"@ != "deleted_at"@) by {
            assert("updated_at"@[0] == 'u' && "deleted_at"@[0] == 'd');
        }
        assert(fv.len() == 16);
        assert(spec_obj_get(fv, "id"@) == Some(fv[0].1));
        assert(spec_obj_get(fv, "text"@) == Some(fv[1].1));
        assert(spec_obj_get(fv, "content"@) == Some(fv[2].1));
        assert(spec_obj_get(fv, "tab"@) == Some(fv[3].1));
        assert(spec_obj_get(fv, "quadrant"@) == Some(fv[4].1));
        assert(spec_obj_get(fv, "progress"@) == Some(fv[5].1));
        assert(spec_obj_get(fv, "completed"@) == Some(fv[6].1));
        assert(spec_obj_get(fv, "completed_at"@) == Some(fv[7].1));
        assert(spec_obj_get(fv, "due_date"@) == Some(fv[8].1));
        assert(spec_obj_get(fv, "assignee"@) == Some(fv[9].1));
        assert(spec_obj_get(fv, "tags"@) == Some(fv[10].1));
        assert(spec_obj_get(fv, "created_at"@) == Some(fv[11].1));
        assert(spec_obj_get(fv, "updated_at"@) == Some(fv[12].1));
        assert(spec_obj_get(fv, "changelog"@) == Some(fv[13].1));
        assert(spec_obj_get(fv, "deleted"@) == Some(fv[14].1));
        assert(spec_obj_get(fv, "deleted_at"@) == Some(fv[15].1));
        assert("important-urgent"@.len() == 16 && "important-not-urgent"@.len() == 20
            && "not-important-urgent"@.len() == 20 && "not-important-not-urgent"@.len() == 24);
        assert("important-not-urgent"@ != "not-important-urgent"@) by {
            assert("important-not-urgent"@[0] == 'i' && "not-important-urgent"@[0] == 'n');
        }
        assert(spec_tab_strict(spec_tab_str(t.tab)) == Some(t.tab)) by {
            assert("today"@.len() == 5 && "week"@.len() == 4 && "month"@.len() == 5);
            assert("week"@ != "today"@);
            assert("month"@ != "today"@) by {
                assert("month"@[0] == 'm' && "today"@[0] == 't');
            }
            assert("month"@ != "week"@);
        }
        assert(spec_quadrant_strict(spec_quadrant_str(t.quadrant)) == Some(t.quadrant));
        assert(spec_req_string(fv, "id"@) == Some(t.id@));
        assert(spec_req_string(fv, "text"@) == Some(t.text@));
        assert(spec_def_string(fv, "content"@) == Some(t.content@));
        assert(spec_def_tab(fv, "tab"@) == Some(t.tab));
        assert(spec_def_quadrant(fv, "quadrant"@) == Some(t.quadrant));
        assert(spec_def_progress(fv, "progress"@) == Some(t.progress));
        assert(spec_def_bool(fv, "completed"@) == Some(t.completed));
        assert(spec_opt_string(fv, "completed_at"@) == Some(opt_view(t.completed_at)));
        assert(spec_opt_string(fv, "due_date"@) == Some(opt_view(t.due_date)));
        assert(spec_def_string(fv, "assignee"@) == Some(t.assignee@));
        assert(spec_req_string(fv, "created_at"@) == Some(t.created_at@));
        assert(spec_req_string(fv, "updated_at"@) == Some(t.updated_at@));
        assert(spec_def_bool(fv, "deleted"@) == Some(t.deleted));
        assert(spec_opt_string(fv, "deleted_at"@) == Some(opt_view(t.deleted_at)));
    }
    j
}

/// A routine read out of a document value: identifier and text must be
/// present; the flag defaults to false, the recorded day to nothing,
/// the creation time to empty.
pub open spec fn spec_routine_of_json(j: Json) -> Option<RoutineV> {
    match j {
        Json::Obj(fields) => {
            let f = fields@;
            match spec_req_string(f, "id"@) {
                Some(id) => match spec_req_string(f, "text"@) {
                    Some(text) => match spec_def_bool(f, "completed_today"@) {
                        Some(completed_today) => match spec_opt_string(f, "last_completed_date"@) {
                            Some(last_completed_date) => match spec_def_string(f, "created_at"@) {
                                Some(created_at) => Some(
                                    RoutineV {
                                        id,
                                        text,
                                        completed_today,
                                        last_completed_date,
                                        created_at,
                                    },
                                ),
                                None => None,
                            },
                            None => None,
                        },
                        None => None,
                    },
                    None => None,
                },
                None => None,
            }
        },
        _ => None,
    }
}

/// Reads a routine, as `spec_routine_of_json` says.
pub fn routine_of_json(j: &Json) -> (r: Result<Routine, DbError>)
    ensures
        match r {
            Ok(t) => spec_routine_of_json(*j) == Some(t@),
            Err(e) => spec_routine_of_json(*j) is None && e is Parse,
        },
{
    let fields = match j {
        Json::Obj(fields) => fields,
        _ => {
            return Err(bad_field("items"));
        },
    };
    let id = match req_string(fields, "id") {
        Ok(s) => s,
        Err(e) => return Err(e),
    };
    let text = match req_string(fields, "text") {
        Ok(s) => s,
        Err(e) => return Err(e),
    };
    let completed_today = match def_bool(fields, "completed_today") {
        Ok(b) => b,
        Err(e) => return Err(e),
    };
    let last_completed_date = match opt_string(fields, "last_completed_date") {
        Ok(o) => o,
        Err(e) => return Err(e),
    };
    let created_at = match def_string(fields, "created_at") {
        Ok(s) => s,
        Err(e) => return Err(e),
    };
    Ok(Routine { id, text, completed_today, last_completed_date, created_at })
}

/// Writes a routine in the canonical shape; reading the result gives
/// the routine back.
pub fn routine_to_json(t: &Routine) -> (j: Json)
    ensures
        spec_routine_of_json(j) == Some(t@),
{
    let mut fields: Vec<(String, Json)> = Vec::new();
    fields.push((String::from_str("id"), Json::Str(t.id.clone())));
    fields.push((String::from_str("text"), Json::Str(t.text.clone())));
    fields.push((String::from_str("completed_today"), Json::Bool(t.completed_today)));
    fields.push((String::from_str("last_completed_date"), opt_to_json(&t.last_completed_date)));
    fields.push((String::from_str("created_at"), Json::Str(t.created_at.clone())));
    let ghost fv = fields@;
    let j = Json::Obj(fields);
    proof {
        reveal_with_fuel(crate::json::spec_obj_get, 7);
        reveal_strlit("id");
        reveal_strlit("text");
        reveal_strlit("completed_today");
        reveal_strlit("last_completed_date");
        reveal_strlit("created_at");
        assert("id"@.len() == 2 && "text"@.len() == 4 && "completed_today"@.len() == 15
            && "last_completed_date"@.len() == 19 && "created_at"@.len() == 10);
        assert(fv.len() == 5);
        assert(spec_obj_get(fv, "id"@) == Some(fv[0].1));
        assert(spec_obj_get(fv, "text"@) == Some(fv[1].1));
        assert(spec_obj_get(fv, "completed_today"@) == Some(fv[2].1));
        assert(spec_obj_get(fv, "last_completed_date"@) == Some(fv[3].1));
        assert(spec_obj_get(fv, "created_at"@) == Some(fv[4].1));
        assert(spec_req_string(fv, "id"@) == Some(t.id@));
        assert(spec_req_string(fv, "text"@) == Some(t.text@));
        assert(spec_def_bool(fv, "completed_today"@) == Some(t.completed_today));
        assert(spec_opt_string(fv, "last_completed_date"@) == Some(opt_view(t.last_completed_date)));
        assert(spec_def_string(fv, "created_at"@) == Some(t.created_at@));
    }
    j
}

/// The todos of a whole document: an object whose `items` field is an
/// array of todos.
pub open spec fn spec_todos_doc(j: Json) -> Option<Seq<TodoV>> {
    match j {
        Json::Obj(fields) => match spec_obj_get(fields@, "items"@) {
            Some(Json::Arr(elems)) => spec_todo_seq(elems@),
            _ => None,
        },
        _ => None,
    }
}

/// The routines of a whole document.
pub open spec fn spec_routines_doc(j: Json) -> Option<Seq<RoutineV>> {
    match j {
        Json::Obj(fields) => match spec_obj_get(fields@, "items"@) {
            Some(Json::Arr(elems)) => spec_routine_seq(elems@),
            _ => None,
        },
        _ => None,
    }
}

/// A list of todos read out of document values.
pub open spec fn spec_todo_seq(elems: Seq<Json>) -> Option<Seq<TodoV>>
    decreases elems.len(),
{
    if elems.len() == 0 {
        Some(Seq::<TodoV>::empty())
    } else {
        match spec_todo_seq(elems.drop_last()) {
            Some(s) => match spec_todo_of_json(elems.last()) {
                Some(t) => Some(s.push(t)),
                None => None,
            },
            None => None,
        }
    }
}

/// A list of routines read out of document values.
pub open spec fn spec_routine_seq(elems: Seq<Json>) -> Option<Seq<RoutineV>>
    decreases elems.len(),
{
    if elems.len() == 0 {
        Some(Seq::<RoutineV>::empty())
    } else {
        match spec_routine_seq(elems.drop_last()) {
            Some(s) => match spec_routine_of_json(elems.last()) {
                Some(t) => Some(s.push(t)),
                None => None,
            },
            None => None,
        }
    }
}

/// A list with an unreadable element reads as nothing.
proof fn lemma_todo_seq_bad(elems: Seq<Json>, i: int)
    requires
        0 <= i < elems.len(),
        spec_todo_of_json(elems[i]) is None,
    ensures
        spec_todo_seq(elems) is None,
    decreases elems.len(),
{
    if elems.len() > 0 && i < elems.len() - 1 {
        lemma_todo_seq_bad(elems.drop_last(), i);
    }
}

/// A list with an unreadable element reads as nothing.
proof fn lemma_routine_seq_bad(elems: Seq<Json>, i: int)
    requires
        0 <= i < elems.len(),
        spec_routine_of_json(elems[i]) is None,
    ensures
        spec_routine_seq(elems) is None,
    decreases elems.len(),
{
    if elems.len() > 0 && i < elems.len() - 1 {
        lemma_routine_seq_bad(elems.drop_last(), i);
    }
}

/// Reads the todos of a whole document, as `spec_todos_doc` says.
pub fn todos_of_doc(j: &Json) -> (r: Result<Vec<Todo>, DbError>)
    ensures
        match r {
            Ok(v) => spec_todos_doc(*j) == Some(v@.map_values(|t: Todo| t@)),
            Err(e) => spec_todos_doc(*j) is None && e is Parse,
        },
{
    let fields = match j {
        Json::Obj(fields) => fields,
        _ => {
            return Err(bad_field("items"));
        },
    };
    let items_json = match obj_get(fields, "items") {
        Some(x) => x,
        None => {
            return Err(bad_field("items"));
        },
    };
    let elems = match items_json {
        Json::Arr(elems) => elems,
        _ => {
            return Err(bad_field("items"));
        },
    };
    let mut out: Vec<Todo> = Vec::new();
    let mut i: usize = 0;
    proof {
        assert(elems@.take(0) =~= Seq::<Json>::empty());
        assert(out@.map_values(|t: Todo| t@) =~= Seq::<TodoV>::empty());
    }
    while i < elems.len()
        invariant
            0 <= i <= elems@.len(),
            spec_todos_doc(*j) == spec_todo_seq(elems@),
            spec_todo_seq(elems@.take(i as int)) == Some(out@.map_values(|t: Todo| t@)),
        decreases elems@.len() - i,
    {
        let t = match todo_of_json(&elems[i]) {
            Ok(t) => t,
            Err(e) => {
                proof {
                    lemma_todo_seq_bad(elems@, i as int);
                }
                return Err(e);
            },
        };
        out.push(t);
        proof {
            assert(elems@.take(i + 1).drop_last() =~= elems@.take(i as int));
            assert(elems@.take(i + 1).last() == elems@[i as int]);
            assert(out@.map_values(|t: Todo| t@) =~= out@.drop_last().map_values(
                |t: Todo| t@,
            ).push(out@.last()@));
        }
        i += 1;
    }
    proof {
        assert(elems@.take(elems@.len() as int) =~= elems@);
    }
    Ok(out)
}

/// Reads the routines of a whole document, as `spec_routines_doc` says.
pub fn routines_of_doc(j: &Json) -> (r: Result<Vec<Routine>, DbError>)
    ensures
        match r {
            Ok(v) => spec_routines_doc(*j) == Some(v@.map_values(|t: Routine| t@)),
            Err(e) => spec_routines_doc(*j) is None && e is Parse,
        },
{
    let fields = match j {
        Json::Obj(fields) => fields,
        _ => {
            return Err(bad_field("items"));
        },
    };
    let items_json = match obj_get(fields, "items") {
        Some(x) => x,
        None => {
            return Err(bad_field("items"));
        },
    };
    let elems = match items_json {
        Json::Arr(elems) => elems,
        _ => {
            return Err(bad_field("items"));
        },
    };
    let mut out: Vec<Routine> = Vec::new();
    let mut i: usize = 0;
    proof {
        assert(elems@.take(0) =~= Seq::<Json>::empty());
        assert(out@.map_values(|t: Routine| t@) =~= Seq::<RoutineV>::empty());
    }
    while i < elems.len()
        invariant
            0 <= i <= elems@.len(),
            spec_routines_doc(*j) == spec_routine_seq(elems@),
            spec_routine_seq(elems@.take(i as int)) == Some(out@.map_values(|t: Routine| t@)),
        decreases elems@.len() - i,
    {
        let t = match routine_of_json(&elems[i]) {
            Ok(t) => t,
            Err(e) => {
                proof {
                    lemma_routine_seq_bad(elems@, i as int);
                }
                return Err(e);
            },
        };
        out.push(t);
        proof {
            assert(elems@.take(i + 1).drop_last() =~= elems@.take(i as int));
            assert(elems@.take(i + 1).last() == elems@[i as int]);
            assert(out@.map_values(|t: Routine| t@) =~= out@.drop_last().map_values(
                |t: Routine| t@,
            ).push(out@.last()@));
        }
        i += 1;
    }
    proof {
        assert(elems@.take(elems@.len() as int) =~= elems@);
    }
    Ok(out)
}

/// Writes a whole todos document; reading the result gives the items
/// back in order.
pub fn todos_to_doc(items: &Vec<Todo>) -> (j: Json)
    ensures
        spec_todos_doc(j) == Some(items@.map_values(|t: Todo| t@)),
{
    let mut elems: Vec<Json> = Vec::new();
    let mut i: usize = 0;
    proof {
        assert(elems@ =~= Seq::<Json>::empty());
        assert(items@.take(0).map_values(|t: Todo| t@) =~= Seq::<TodoV>::empty());
    }
    while i < items.len()
        invariant
            0 <= i <= items@.len(),
            spec_todo_seq(elems@) == Some(items@.take(i as int).map_values(|t: Todo| t@)),
        decreases items@.len() - i,
    {
        let j = todo_to_json(&items[i]);
        let ghost prev = elems@;
        elems.push(j);
        proof {
            assert(elems@.drop_last() =~= prev);
            assert(items@.take(i + 1).map_values(|t: Todo| t@) =~= items@.take(i as int).map_values(
                |t: Todo| t@,
            ).push(items@[i as int]@));
        }
        i += 1;
    }
    proof {
        assert(items@.take(items@.len() as int) =~= items@);
    }
    let mut fields: Vec<(String, Json)> = Vec::new();
    let ghost ev = elems@;
    fields.push((String::from_str("items"), Json::Arr(elems)));
    let ghost fv = fields@;
    let j = Json::Obj(fields);
    proof {
        assert(fv.len() == 1);
        assert(spec_obj_get(fv, "items"@) == Some(fv[0].1));
    }
    j
}

/// Writes a whole routines document; reading the result gives the items
/// back in order.
pub fn routines_to_doc(items: &Vec<Routine>) -> (j: Json)
    ensures
        spec_routines_doc(j) == Some(items@.map_values(|t: Routine| t@)),
{
    let mut elems: Vec<Json> = Vec::new();
    let mut i: usize = 0;
    proof {
        assert(elems@ =~= Seq::<Json>::empty());
        assert(items@.take(0).map_values(|t: Routine| t@) =~= Seq::<RoutineV>::empty());
    }
    while i < items.len()
        invariant
            0 <= i <= items@.len(),
            spec_routine_seq(elems@) == Some(items@.take(i as int).map_values(|t: Routine| t@)),
        decreases items@.len() - i,
    {
        let j = routine_to_json(&items[i]);
        let ghost prev = elems@;
        elems.push(j);
        proof {
            assert(elems@.drop_last() =~= prev);
            assert(items@.take(i + 1).map_values(|t: Routine| t@) =~= items@.take(
                i as int,
            ).map_values(|t: Routine| t@).push(items@[i as int]@));
        }
        i += 1;
    }
    proof {
        assert(items@.take(items@.len() as int) =~= items@);
    }
    let mut fields: Vec<(String, Json)> = Vec::new();
    fields.push((String::from_str("items"), Json::Arr(elems)));
    let ghost fv = fields@;
    let j = Json::Obj(fields);
    proof {
        assert(fv.len() == 1);
        assert(spec_obj_get(fv, "items"@) == Some(fv[0].1));
    }
    j
}

} // verus!
