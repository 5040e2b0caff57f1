//! The "recording saved" toast: its XML, what a click on it means, and how many stay alive.
use vstd::prelude::*;

use crate::text::{push_char, push_str, str_eq};

verus! {

/// Toast argument of the "Open" action (and of a click on the body).
pub const ARG_OPEN: &'static str = "open";

/// Toast argument of the "Show in folder" action.
pub const ARG_SHOW: &'static str = "show";

/// How many shown toasts are kept alive so that their activation still arrives.
pub const LIVE_TOASTS: usize = 4;

/// What a toast activation asks for.
#[derive(Debug, Clone, Copy, PartialEq, Eq, Structural)]
pub enum ToastAction {
    Open,
    Show,
}

/// `show` asks to show the file in its folder; anything else (a body click too) opens it.
pub fn parse_toast_action(argument: &str) -> (r: ToastAction)
    ensures
        r == if argument@ == "show"@ {
            ToastAction::Show
        } else {
            ToastAction::Open
        },
{
    if str_eq(argument, "show") {
        ToastAction::Show
    } else {
        ToastAction::Open
    }
}

/// The XML text of one character.
pub open spec fn escape_char(c: char) -> Seq<char> {
    if c == '&' {
        "&amp;"@
    } else if c == '<' {
        "&lt;"@
    } else if c == '>' {
        "&gt;"@
    } else if c == '"' {
        "&quot;"@
    } else if c == '\'' {
        "&apos;"@
    } else {
        seq![c]
    }
}

/// `s` with the five XML specials replaced by their entities.
pub open spec fn xml_escape_spec(s: Seq<char>) -> Seq<char>
    decreases s.len(),
{
    if s.len() == 0 {
        Seq::empty()
    } else {
        xml_escape_spec(s.drop_last()) + escape_char(s.last())
    }
}

/// A character that may not appear raw in escaped XML text.
pub open spec fn xml_special(c: char) -> bool {
    c == '<' || c == '>' || c == '"' || c == '\''
}

/// Escaped text holds no raw `<`, `>`, `"` or `'`; text with none of them and no `&` is
/// left as it is.
pub proof fn lemma_xml_escape_safe(s: Seq<char>)
    ensures
        forall|i: int|
            0 <= i < xml_escape_spec(s).len() ==> !xml_special(#[trigger] xml_escape_spec(s)[i]),
        (forall|i: int| 0 <= i < s.len() ==> !xml_special(#[trigger] s[i]) && s[i] != '&')
            ==> xml_escape_spec(s) == s,
    decreases s.len(),
{
    reveal_strlit("&amp;");
    reveal_strlit("&lt;");
    reveal_strlit("&gt;");
    reveal_strlit("&quot;");
    reveal_strlit("&apos;");
    if s.len() > 0 {
        lemma_xml_escape_safe(s.drop_last());
        let a = xml_escape_spec(s.drop_last());
        let b = escape_char(s.last());
        assert forall|i: int| 0 <= i < b.len() implies !xml_special(#[trigger] b[i]) by {}
        assert forall|i: int| 0 <= i < (a + b).len() implies !xml_special(#[trigger] (a + b)[i]) by {
            if i < a.len() {
                assert((a + b)[i] == a[i]);
            } else {
                assert((a + b)[i] == b[i - a.len()]);
            }
        }
        if forall|i: int| 0 <= i < s.len() ==> !xml_special(#[trigger] s[i]) && s[i] != '&' {
            assert forall|i: int| 0 <= i < s.drop_last().len() implies !xml_special(
                #[trigger] s.drop_last()[i],
            ) && s.drop_last()[i] != '&' by {
                assert(s.drop_last()[i] == s[i]);
            }
            assert(!xml_special(s[s.len() - 1]) && s[s.len() - 1] != '&');
            assert(a + b =~= s);
        }
    } else {
        assert(xml_escape_spec(s) =~= s);
    }
}

/// Escapes `&`, `<`, `>`, `"` and `'` for XML text and attributes.
pub fn xml_escape(text: &str) -> (r: String)
    ensures
        r@ == xml_escape_spec(text@),
{
    let n = text.unicode_len();
    let mut out = String::new();
    let mut i: usize = 0;
    while i < n
        invariant
            n == text@.len(),
            0 <= i <= n,
            out@ == xml_escape_spec(text@.subrange(0, i as int)),
        decreases n - i,
    {
        let ch = text.get_char(i);
        let ghost before = out@;
        if ch == '&' {
            push_str(&mut out, "&amp;");
        } else if ch == '<' {
            push_str(&mut out, "&lt;");
        } else if ch == '>' {
            push_str(&mut out, "&gt;");
        } else if ch == '"' {
            push_str(&mut out, "&quot;");
        } else if ch == '\'' {
            push_str(&mut out, "&apos;");
        } else {
            push_char(&mut out, ch);
            assert(out@ =~= before + seq![ch]);
        }
        proof {
            let pre = text@.subrange(0, i + 1);
            assert(pre.drop_last() =~= text@.subrange(0, i as int));
            assert(pre.last() == ch);
        }
        i = i + 1;
    }
    assert(text@.subrange(0, n as int) =~= text@);
    out
}

/// The toast: app name, headline and file, with "Open" and "Show in folder" actions.
pub open spec fn toast_xml_spec(headline: Seq<char>, file: Seq<char>) -> Seq<char> {
    "<toast launch=\"open\"><visual><binding template=\"ToastGeneric\"><text>LightCapture</text><text>"@
        + xml_escape_spec(headline) + "</text><text>"@ + xml_escape_spec(file)
        + "</text></binding></visual><actions><action content=\"Open\" arguments=\"open\"/><action content=\"Show in folder\" arguments=\"show\"/></actions></toast>"@
}

/// Toast XML for a saved recording.
pub fn toast_xml(headline: &str, file: &str) -> (r: String)
    ensures
        r@ == toast_xml_spec(headline@, file@),
{
    let mut out = String::new();
    push_str(
        &mut out,
        "<toast launch=\"open\"><visual><binding template=\"ToastGeneric\"><text>LightCapture</text><text>",
    );
    let h = xml_escape(headline);
    push_str(&mut out, h.as_str());
    push_str(&mut out, "</text><text>");
    let f = xml_escape(file);
    push_str(&mut out, f.as_str());
    push_str(
        &mut out,
        "</text></binding></visual><actions><action content=\"Open\" arguments=\"open\"/><action content=\"Show in folder\" arguments=\"show\"/></actions></toast>",
    );
    assert(out@ =~= toast_xml_spec(headline@, file@));
    out
}

/// The toast announcing a saved recording at `path`.
pub fn recording_saved(path: &str) -> (r: String)
    ensures
        r@ == toast_xml_spec("Saved recording"@, path@),
{
    toast_xml("Saved recording", path)
}

/// The toast announcing a recording kept at `path` under the headline `title` (a session that
/// ended with an error but left a file).
pub fn recording_kept(title: &str, path: &str) -> (r: String)
    ensures
        r@ == toast_xml_spec(title@, path@),
{
    toast_xml(title, path)
}

/// Keeps `item` alive with the most recent others: at most [`LIVE_TOASTS`], oldest dropped.
pub fn retain<T>(live: &mut Vec<T>, item: T)
    ensures
        final(live)@ == if old(live)@.len() + 1 > LIVE_TOASTS {
            old(live)@.push(item).drop_first()
        } else {
            old(live)@.push(item)
        },
{
    live.push(item);
    if live.len() > LIVE_TOASTS {
        let _ = live.remove(0);
        assert(live@ =~= old(live)@.push(item).drop_first());
    }
}

} // verus!
