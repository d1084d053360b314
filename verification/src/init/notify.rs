//! sd_notify(3) messages.
//!
//! A datagram on the notify socket carries `KEY=VALUE` lines (`READY=1`,
//! `STATUS=...`, `MAINPID=...`, `WATCHDOG=1`, ...). Receiving the datagram is
//! the event loop's work; decoding and reading the fields happen here.
use crate::keyed::{table_get, table_map, text_map};
use crate::text::{
    chars_of,
    first_index,
    lemma_first_index_facts,
    lines_scan,
    strip_cr,
    decode_utf8_strict,
    lines,
    lines_of,
    owned,
    parse_i32,
    parse_signed,
    split_once,
    split_once_chars,
    str_eq,
    string_from,
    trim,
    trim_chars,
};
use vstd::prelude::*;
use vstd::utf8::{decode_utf8, valid_utf8};

verus! {

/// The field a line declares: the trimmed key before the first `=` and the
/// raw value after it; lines without `=` or with an empty key declare none.
pub open spec fn line_field(l: Seq<char>) -> Option<(Seq<char>, Seq<char>)> {
    match split_once(l, '=') {
        Some((k, v)) => if trim(k).len() > 0 {
            Some((trim(k), v))
        } else {
            None
        },
        None => None,
    }
}

/// The fields declared by a sequence of lines; a later declaration of a key
/// replaces an earlier one.
pub open spec fn fields_of_lines(ls: Seq<Seq<char>>) -> Map<Seq<char>, Seq<char>>
    decreases ls.len(),
{
    if ls.len() == 0 {
        Map::empty()
    } else {
        match line_field(ls.last()) {
            Some((k, v)) => fields_of_lines(ls.drop_last()).insert(k, v),
            None => fields_of_lines(ls.drop_last()),
        }
    }
}

/// The fields of an sd_notify message text.
pub open spec fn notify_fields(text: Seq<char>) -> Map<Seq<char>, Seq<char>> {
    fields_of_lines(lines(text))
}

/// Text without a line break is one pending, unfinished line.
proof fn lemma_scan_unbroken(s: Seq<char>)
    requires
        forall|i: int| 0 <= i < s.len() ==> s[i] != '\n',
    ensures
        lines_scan(s) == (Seq::<Seq<char>>::empty(), s),
    decreases s.len(),
{
    if s.len() > 0 {
        lemma_scan_unbroken(s.drop_last());
        assert(s.drop_last().push(s.last()) =~= s);
    }
}

/// A datagram of one `KEY=VALUE` line declares exactly that field.
pub proof fn law_single_field(key: Seq<char>, value: Seq<char>)
    requires
        key.len() > 0,
        trim(key) == key,
        forall|i: int| 0 <= i < key.len() ==> key[i] != '=' && key[i] != '\n',
        forall|i: int| 0 <= i < value.len() ==> value[i] != '\n',
        value.len() == 0 || value.last() != '\r',
    ensures
        notify_fields(key + seq!['='] + value + seq!['\n']) == map![key => value],
{
    let l = key + seq!['='] + value;
    let text = l + seq!['\n'];
    assert forall|i: int| 0 <= i < l.len() implies l[i] != '\n' by {
        if i < key.len() {
            assert(l[i] == key[i]);
        } else if i > key.len() {
            assert(l[i] == value[i - key.len() - 1]);
        }
    }
    lemma_scan_unbroken(l);
    assert(text.drop_last() =~= l);
    assert(lines_scan(text) == (seq![strip_cr(l)], Seq::<char>::empty()));
    assert(strip_cr(l) == l) by {
        if value.len() == 0 {
            assert(l.last() == '=');
        } else {
            assert(l.last() == value.last());
        }
    }
    assert(lines(text) =~= seq![l]);
    lemma_first_index_facts(l, '=');
    assert(l[key.len() as int] == '=');
    match first_index(l, '=') {
        Some(i) => {
            if i < key.len() {
                assert(l[i] == key[i]);
            }
            assert(i == key.len());
        },
        None => {
            assert(false);
        },
    }
    assert(l.take(key.len() as int) =~= key);
    assert(l.skip(key.len() as int + 1) =~= value);
    assert(line_field(l) == Some((key, value)));
    let one = seq![l];
    assert(one.drop_last() =~= Seq::<Seq<char>>::empty());
    assert(one.last() == l);
    assert(fields_of_lines(one.drop_last()) == Map::<Seq<char>, Seq<char>>::empty());
    assert(fields_of_lines(one) == Map::<Seq<char>, Seq<char>>::empty().insert(key, value));
    assert(fields_of_lines(one) =~= map![key => value]);
}

/// Parses `KEY=VALUE` lines into `(key, value)` entries, in order; the table
/// they form maps each key to its last value.
pub fn parse_fields(text: &str) -> (r: Vec<(String, String)>)
    ensures
        text_map(r@) == notify_fields(text@),
{
    let v = chars_of(text);
    let ls = lines_of(v.as_slice());
    let ghost all = lines(text@);
    let mut fields: Vec<(String, String)> = Vec::new();
    let mut i: usize = 0;
    while i < ls.len()
        invariant
            i <= ls@.len() == all.len(),
            forall|j: int| 0 <= j < ls@.len() ==> #[trigger] ls@[j]@ == all[j],
            text_map(fields@) == fields_of_lines(all.take(i as int)),
        decreases ls@.len() - i,
    {
        proof {
            assert(all.take(i + 1).drop_last() =~= all.take(i as int));
            assert(all.take(i + 1).last() == ls@[i as int]@);
        }
        match split_once_chars(ls[i].as_slice(), '=') {
            Some((k, val)) => {
                let key = trim_chars(k.as_slice());
                if key.len() > 0 {
                    let ks = string_from(key.as_slice());
                    let vs = string_from(val.as_slice());
                    let ghost prev = fields@;
                    let ghost kv = ks@;
                    let ghost vv = vs@;
                    fields.push((ks, vs));
                    proof {
                        assert(fields@.drop_last() =~= prev);
                        assert(table_map(fields@) == table_map(prev).insert(kv, fields@.last().1));
                        assert(line_field(all[i as int]) == Some((kv, vv)));
                        assert(fields_of_lines(all.take(i + 1)) == fields_of_lines(all.take(i as int)).insert(kv, vv));
                        assert(text_map(fields@) =~= fields_of_lines(all.take(i + 1)));
                    }
                }
            },
            None => {},
        }
        proof {
            assert(text_map(fields@) =~= fields_of_lines(all.take(i + 1)));
        }
        i = i + 1;
    }
    proof {
        assert(all.take(all.len() as int) =~= all);
    }
    fields
}

/// A parsed sd_notify message.
pub struct NotifyMessage {
    /// `(key, value)` entries in the order received; a later entry for a key
    /// replaces an earlier one.
    pub fields: Vec<(String, String)>,
}

/// Whether a field is present with the value `1`.
pub open spec fn flag_set(m: Map<Seq<char>, Seq<char>>, key: Seq<char>) -> bool {
    m.contains_key(key) && m[key] == "1"@
}

/// The `MAINPID` field read as an `i32`, when present and valid.
pub open spec fn main_pid_field(m: Map<Seq<char>, Seq<char>>) -> Option<i32> {
    if m.contains_key("MAINPID"@) {
        match parse_signed(m["MAINPID"@], i32::MAX as nat) {
            Some(p) => Some(p as i32),
            None => None,
        }
    } else {
        None
    }
}

impl NotifyMessage {
    /// The message's fields by key.
    pub open spec fn field_map(&self) -> Map<Seq<char>, Seq<char>> {
        text_map(self.fields@)
    }

    /// Parses the text of a message.
    pub fn parse(text: &str) -> (r: NotifyMessage)
        ensures
            r.field_map() == notify_fields(text@),
    {
        NotifyMessage { fields: parse_fields(text) }
    }

    /// Parses a received datagram; a datagram that is not UTF-8 carries no
    /// fields.
    pub fn from_datagram(bytes: &[u8]) -> (r: NotifyMessage)
        ensures
            valid_utf8(bytes@) ==> r.field_map() == notify_fields(decode_utf8(bytes@)),
            !valid_utf8(bytes@) ==> r.field_map() == notify_fields(Seq::<char>::empty()),
    {
        match decode_utf8_strict(bytes) {
            Some(s) => NotifyMessage::parse(s.as_str()),
            None => {
                let e = owned("");
                proof {
                    reveal_strlit("");
                }
                NotifyMessage::parse(e.as_str())
            },
        }
    }

    fn flag(&self, key: &str) -> (r: bool)
        ensures
            r == flag_set(self.field_map(), key@),
    {
        let k = owned(key);
        match table_get(&self.fields, &k) {
            Some(v) => str_eq(v.as_str(), "1"),
            None => false,
        }
    }

    /// Service reports it has finished starting (`READY=1`).
    pub fn is_ready(&self) -> (r: bool)
        ensures
            r == flag_set(self.field_map(), "READY"@),
    {
        self.flag("READY")
    }

    /// Human-readable status line (`STATUS=`).
    pub fn status(&self) -> (r: Option<&str>)
        ensures
            r matches Some(s) ==> self.field_map().contains_key("STATUS"@) && s@
                == self.field_map()["STATUS"@],
            r is None ==> !self.field_map().contains_key("STATUS"@),
    {
        let k = owned("STATUS");
        match table_get(&self.fields, &k) {
            Some(v) => Some(v.as_str()),
            None => None,
        }
    }

    /// Main PID override (`MAINPID=`), when it is a valid `i32`.
    pub fn main_pid(&self) -> (r: Option<i32>)
        ensures
            r == main_pid_field(self.field_map()),
    {
        let k = owned("MAINPID");
        match table_get(&self.fields, &k) {
            Some(v) => {
                let cs = chars_of(v.as_str());
                parse_i32(cs.as_slice())
            },
            None => None,
        }
    }

    /// Watchdog keepalive (`WATCHDOG=1`).
    pub fn is_watchdog(&self) -> (r: bool)
        ensures
            r == flag_set(self.field_map(), "WATCHDOG"@),
    {
        self.flag("WATCHDOG")
    }

    /// Service is stopping (`STOPPING=1`).
    pub fn is_stopping(&self) -> (r: bool)
        ensures
            r == flag_set(self.field_map(), "STOPPING"@),
    {
        self.flag("STOPPING")
    }

    /// Service is reloading configuration (`RELOADING=1`).
    pub fn is_reloading(&self) -> (r: bool)
        ensures
            r == flag_set(self.field_map(), "RELOADING"@),
    {
        self.flag("RELOADING")
    }
}

} // verus!
