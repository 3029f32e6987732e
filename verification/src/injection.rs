//! What the text-injection collaborator is told on platforms that type
//! through a scripting host: the text, escaped, inside the host's command.

use crate::text::chars_of;
use vstd::prelude::*;
use vstd::string::StringExecFns;

verus! {

/// How one character is written inside an AppleScript string literal.
pub open spec fn applescript_escape(c: char) -> Seq<char> {
    if c == '\\' {
        seq!['\\', '\\']
    } else if c == '"' {
        seq!['\\', '"']
    } else if c == '\n' {
        seq!['\\', 'n']
    } else if c == '\r' {
        seq!['\\', 'r']
    } else if c == '\t' {
        seq!['\\', 't']
    } else {
        seq![c]
    }
}

/// How one character is written inside a single-quoted PowerShell string.
pub open spec fn powershell_escape(c: char) -> Seq<char> {
    if c == '\'' {
        seq!['\'', '\'']
    } else {
        seq![c]
    }
}

/// `s` with every character written as `escape` says.
pub open spec fn escaped(s: Seq<char>, escape: spec_fn(char) -> Seq<char>) -> Seq<char>
    decreases s.len(),
{
    if s.len() == 0 {
        Seq::<char>::empty()
    } else {
        escaped(s.drop_last(), escape) + escape(s.last())
    }
}

/// The AppleScript command that types `text`.
pub open spec fn applescript_command(text: Seq<char>) -> Seq<char> {
    "tell application \"System Events\" to keystroke \""@ + escaped(
        text,
        |c: char| applescript_escape(c),
    ) + "\""@
}

/// The PowerShell command that types `text`.
pub open spec fn powershell_command(text: Seq<char>) -> Seq<char> {
    "Add-Type -AssemblyName System.Windows.Forms; [System.Windows.Forms.SendKeys]::SendWait('"@
        + escaped(text, |c: char| powershell_escape(c)) + "')"@
}

/// `String::push` of the standard library: appends one character.
#[verifier::external_body]
fn push_char(s: &mut String, c: char)
    ensures
        final(s)@ == old(s)@.push(c),
{
    s.push(c)
}

/// Appends `text`, escaped for an AppleScript string literal, to `out`.
fn push_applescript_escaped(out: &mut String, text: &str)
    ensures
        final(out)@ == old(out)@ + escaped(text@, |c: char| applescript_escape(c)),
{
    let chars = chars_of(text);
    let ghost escape = |c: char| applescript_escape(c);
    let mut i: usize = 0;
    assert(chars@.take(0) =~= Seq::<char>::empty());
    assert(old(out)@ + Seq::<char>::empty() =~= old(out)@);
    while i < chars.len()
        invariant
            i <= chars@.len(),
            chars@ == text@,
            escape == (|c: char| applescript_escape(c)),
            out@ == old(out)@ + escaped(chars@.take(i as int), escape),
        decreases chars@.len() - i,
    {
        let c = chars[i];
        let ghost before = out@;
        if c == '\\' {
            push_char(out, '\\');
            push_char(out, '\\');
        } else if c == '"' {
            push_char(out, '\\');
            push_char(out, '"');
        } else if c == '\n' {
            push_char(out, '\\');
            push_char(out, 'n');
        } else if c == '\r' {
            push_char(out, '\\');
            push_char(out, 'r');
        } else if c == '\t' {
            push_char(out, '\\');
            push_char(out, 't');
        } else {
            push_char(out, c);
        }
        proof {
            let next = chars@.take(i + 1);
            assert(next.drop_last() =~= chars@.take(i as int));
            assert(next.last() == c);
            assert(out@ =~= before + applescript_escape(c));
            assert(escaped(next, escape) == escaped(chars@.take(i as int), escape) + escape(c));
            assert(out@ =~= old(out)@ + escaped(next, escape));
        }
        i = i + 1;
    }
    assert(chars@.take(i as int) =~= chars@);
}

/// Appends `text`, escaped for a single-quoted PowerShell string, to `out`.
fn push_powershell_escaped(out: &mut String, text: &str)
    ensures
        final(out)@ == old(out)@ + escaped(text@, |c: char| powershell_escape(c)),
{
    let chars = chars_of(text);
    let ghost escape = |c: char| powershell_escape(c);
    let mut i: usize = 0;
    assert(chars@.take(0) =~= Seq::<char>::empty());
    assert(old(out)@ + Seq::<char>::empty() =~= old(out)@);
    while i < chars.len()
        invariant
            i <= chars@.len(),
            chars@ == text@,
            escape == (|c: char| powershell_escape(c)),
            out@ == old(out)@ + escaped(chars@.take(i as int), escape),
        decreases chars@.len() - i,
    {
        let c = chars[i];
        let ghost before = out@;
        if c == '\'' {
            push_char(out, '\'');
            push_char(out, '\'');
        } else {
            push_char(out, c);
        }
        proof {
            let next = chars@.take(i + 1);
            assert(next.drop_last() =~= chars@.take(i as int));
            assert(next.last() == c);
            assert(out@ =~= before + powershell_escape(c));
            assert(escaped(next, escape) == escaped(chars@.take(i as int), escape) + escape(c));
            assert(out@ =~= old(out)@ + escaped(next, escape));
        }
        i = i + 1;
    }
    assert(chars@.take(i as int) =~= chars@);
}

/// `text` as it stands inside an AppleScript string literal: backslash,
/// double quote, line feed, carriage return and tab are written as escapes.
pub fn escape_for_applescript(text: &str) -> (r: String)
    ensures
        r@ == escaped(text@, |c: char| applescript_escape(c)),
{
    let mut out = String::new();
    push_applescript_escaped(&mut out, text);
    assert(Seq::<char>::empty() + escaped(text@, |c: char| applescript_escape(c)) =~= escaped(
        text@,
        |c: char| applescript_escape(c),
    ));
    out
}

/// `text` as it stands inside a single-quoted PowerShell string: every
/// single quote is doubled.
pub fn escape_for_powershell(text: &str) -> (r: String)
    ensures
        r@ == escaped(text@, |c: char| powershell_escape(c)),
{
    let mut out = String::new();
    push_powershell_escaped(&mut out, text);
    assert(Seq::<char>::empty() + escaped(text@, |c: char| powershell_escape(c)) =~= escaped(
        text@,
        |c: char| powershell_escape(c),
    ));
    out
}

/// The AppleScript command that makes System Events type `text`.
pub fn applescript_keystroke(text: &str) -> (r: String)
    ensures
        r@ == applescript_command(text@),
{
    let mut out = String::from_str("tell application \"System Events\" to keystroke \"");
    push_applescript_escaped(&mut out, text);
    out.concat("\"")
}

/// The PowerShell command that makes SendKeys type `text`.
pub fn powershell_send_keys(text: &str) -> (r: String)
    ensures
        r@ == powershell_command(text@),
{
    let mut out = String::from_str(
        "Add-Type -AssemblyName System.Windows.Forms; [System.Windows.Forms.SendKeys]::SendWait('",
    );
    push_powershell_escaped(&mut out, text);
    out.concat("')")
}

} // verus!
