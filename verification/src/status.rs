//! The status aggregator: one report combining the mirror's last-known
//! state with what could be observed, best-effort, of the selected external
//! player, and its rendering as a JSON object.
//!
//! The JSON body is rendered by the library itself so that its exact shape
//! is part of the contract: every field is always present, with `null`
//! standing for an absent value, and string values are escaped so that a
//! quote, a backslash or a control character in a title or a player
//! identity cannot break the object.

use vstd::prelude::*;
use vstd::string::*;
use crate::playback::{
    ext_playback_label, playback_label, render_ext_playback, render_playback, ExtPlayback, Mirror,
};
use crate::text::push_char;

verus! {

/// What was observed of the selected external player while building one
/// status report.
#[derive(Debug)]
pub struct ExtObservation {
    pub identity: String,
    /// The live playback query's answer; absent when the query failed.
    pub playback: Option<ExtPlayback>,
}

/// One status report: what this process last announced, what the external
/// player reports, the announced title, and who is being controlled.
#[derive(Debug)]
pub struct StatusSnapshot {
    pub our_playback: String,
    pub other_playback: Option<String>,
    pub title: Option<String>,
    pub controlled_player: Option<String>,
}

/// Builds the status report. Everything about the external player is
/// best-effort: an absent player or a failed live query yields absent
/// fields, never a failure, because partial information is preferable to
/// none.
pub fn snapshot(mirror: &Mirror, observed: Option<ExtObservation>) -> (r: StatusSnapshot)
    ensures
        r.our_playback@ == playback_label(mirror.playback),
        r.title == mirror.metadata.title,
        observed is None ==> r.other_playback is None && r.controlled_player is None,
        observed matches Some(o) ==> {
            &&& r.controlled_player == Some(o.identity)
            &&& (o.playback matches Some(p) ==> r.other_playback matches Some(s) && s@
                == ext_playback_label(p))
            &&& (o.playback is None ==> r.other_playback is None)
        },
{
    let (other_playback, controlled_player) = match observed {
        None => (None, None),
        Some(o) => {
            let op = match o.playback {
                None => None,
                Some(p) => Some(render_ext_playback(&p)),
            };
            (op, Some(o.identity))
        },
    };
    StatusSnapshot {
        our_playback: render_playback(&mirror.playback),
        other_playback,
        title: mirror.title(),
        controlled_player,
    }
}

/// The sixteen lowercase hexadecimal digits, in value order.
pub open spec fn hex_digits() -> Seq<char> {
    seq!['0', '1', '2', '3', '4', '5', '6', '7', '8', '9', 'a', 'b', 'c', 'd', 'e', 'f']
}

/// How one character appears inside a JSON string: quote and backslash are
/// escaped, control characters become a four-digit escape, everything else
/// stands as itself.
pub open spec fn escape_char(c: char) -> Seq<char> {
    if c == '"' {
        seq!['\\', '"']
    } else if c == '\\' {
        seq!['\\', '\\']
    } else if (c as u32) < 32 {
        seq![
            '\\',
            'u',
            '0',
            '0',
            hex_digits()[(c as u32 / 16) as int],
            hex_digits()[(c as u32 % 16) as int],
        ]
    } else {
        seq![c]
    }
}

/// A whole character sequence, escaped for a JSON string.
pub open spec fn json_escape(s: Seq<char>) -> Seq<char>
    decreases s.len(),
{
    if s.len() == 0 {
        Seq::empty()
    } else {
        escape_char(s[0]) + json_escape(s.drop_first())
    }
}

/// A JSON string value: the escaped characters between quotes.
pub open spec fn json_string(s: Seq<char>) -> Seq<char> {
    seq!['"'] + json_escape(s) + seq!['"']
}

pub open spec fn opt_view(o: Option<String>) -> Option<Seq<char>> {
    match o {
        None => None,
        Some(s) => Some(s@),
    }
}

/// An optional JSON string value: `null` when absent.
pub open spec fn json_field_string(o: Option<Seq<char>>) -> Seq<char> {
    match o {
        None => "null"@,
        Some(s) => json_string(s),
    }
}

/// The whole status object, field by field.
pub open spec fn status_json_of(s: StatusSnapshot) -> Seq<char> {
    "{\"our_playback\":"@ + json_string(s.our_playback@) + ",\"other_playback\":"@
        + json_field_string(opt_view(s.other_playback)) + ",\"title\":"@ + json_field_string(
        opt_view(s.title),
    ) + ",\"controlled_player\":"@ + json_field_string(opt_view(s.controlled_player)) + "}"@
}

proof fn lemma_json_escape_push(s: Seq<char>, c: char)
    ensures
        json_escape(s.push(c)) == json_escape(s) + escape_char(c),
    decreases s.len(),
{
    if s.len() == 0 {
        assert(s.push(c)[0] == c);
        assert(s.push(c).drop_first() =~= s);
        assert(json_escape(s.push(c)) == escape_char(c) + json_escape(s));
        assert(json_escape(s.push(c)) =~= json_escape(s) + escape_char(c));
    } else {
        let t = s.drop_first();
        assert(s.push(c)[0] == s[0]);
        assert(s.push(c).drop_first() =~= t.push(c));
        assert(json_escape(s.push(c)) == escape_char(s[0]) + json_escape(t.push(c)));
        lemma_json_escape_push(t, c);
        assert(json_escape(s) == escape_char(s[0]) + json_escape(t));
        assert(escape_char(s[0]) + (json_escape(t) + escape_char(c)) =~= (escape_char(s[0])
            + json_escape(t)) + escape_char(c));
        assert(json_escape(s.push(c)) =~= json_escape(s) + escape_char(c));
    }
}

fn hex_char(d: u32) -> (r: char)
    requires
        d < 16,
    ensures
        r == hex_digits()[d as int],
{
    match d {
        0 => '0',
        1 => '1',
        2 => '2',
        3 => '3',
        4 => '4',
        5 => '5',
        6 => '6',
        7 => '7',
        8 => '8',
        9 => '9',
        10 => 'a',
        11 => 'b',
        12 => 'c',
        13 => 'd',
        14 => 'e',
        _ => 'f',
    }
}

/// Escapes one string for inclusion in a JSON string value.
pub fn json_escape_str(s: &str) -> (r: String)
    ensures
        r@ == json_escape(s@),
{
    let len = s.unicode_len();
    let mut out = String::new();
    let mut i: usize = 0;
    while i < len
        invariant
            len == s@.len(),
            i <= len,
            out@ == json_escape(s@.subrange(0, i as int)),
        decreases len - i,
    {
        let c = s.get_char(i);
        proof {
            assert(s@.subrange(0, i + 1) =~= s@.subrange(0, i as int).push(c));
            lemma_json_escape_push(s@.subrange(0, i as int), c);
        }
        if c == '"' {
            out.append("\\\"");
            proof {
                reveal_strlit("\\\"");
                assert("\\\""@ =~= escape_char(c));
            }
        } else if c == '\\' {
            out.append("\\\\");
            proof {
                reveal_strlit("\\\\");
                assert("\\\\"@ =~= escape_char(c));
            }
        } else if (c as u32) < 32 {
            let v = c as u32;
            out.append("\\u00");
            let hi = hex_char(v / 16);
            let lo = hex_char(v % 16);
            push_char(&mut out, hi);
            push_char(&mut out, lo);
            proof {
                reveal_strlit("\\u00");
                assert("\\u00"@ =~= seq!['\\', 'u', '0', '0']);
                assert("\\u00"@.push(hi).push(lo) =~= escape_char(c));
            }
        } else {
            push_char(&mut out, c);
            proof {
                assert(Seq::<char>::empty().push(c) =~= escape_char(c));
            }
        }
        proof {
            assert(out@ =~= json_escape(s@.subrange(0, i + 1)));
        }
        i += 1;
    }
    proof {
        assert(s@.subrange(0, len as int) =~= s@);
    }
    out
}

/// Appends one JSON string value: quotes around the escaped characters.
fn append_json_string(out: &mut String, s: &str)
    ensures
        final(out)@ == old(out)@ + json_string(s@),
{
    push_char(out, '"');
    let esc = json_escape_str(s);
    out.append(esc.as_str());
    push_char(out, '"');
    proof {
        assert(out@ =~= old(out)@ + json_string(s@));
    }
}

/// Appends one optional JSON string value; `null` when absent.
fn append_json_opt(out: &mut String, o: &Option<String>)
    ensures
        final(out)@ == old(out)@ + json_field_string(opt_view(*o)),
{
    match o {
        None => {
            out.append("null");
        },
        Some(s) => {
            append_json_string(out, s.as_str());
        },
    }
}

/// Renders the status report as its JSON object.
pub fn status_json(s: &StatusSnapshot) -> (r: String)
    ensures
        r@ == status_json_of(*s),
{
    let mut out = "{\"our_playback\":".to_owned();
    append_json_string(&mut out, s.our_playback.as_str());
    out.append(",\"other_playback\":");
    append_json_opt(&mut out, &s.other_playback);
    out.append(",\"title\":");
    append_json_opt(&mut out, &s.title);
    out.append(",\"controlled_player\":");
    append_json_opt(&mut out, &s.controlled_player);
    out.append("}");
    proof {
        assert(out@ =~= status_json_of(*s));
    }
    out
}

} // verus!
