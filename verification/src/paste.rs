use vstd::prelude::*;
use vstd::string::*;
use crate::text::{chars_of, string_from_chars};

verus! {

/// The clipboard script before the text: it saves the clipboard (image,
/// file list or text) and opens the single-quoted literal passed to `SetText`.
pub const PASTE_SCRIPT_HEAD: &'static str = "\nAdd-Type -AssemblyName System.Windows.Forms\n\n# Save current clipboard\n$savedClip = $null\n$savedFormat = 'none'\nif ([System.Windows.Forms.Clipboard]::ContainsImage()) {\n    $savedClip = [System.Windows.Forms.Clipboard]::GetImage()\n    $savedFormat = 'image'\n} elseif ([System.Windows.Forms.Clipboard]::ContainsFileDropList()) {\n    $savedClip = [System.Windows.Forms.Clipboard]::GetFileDropList()\n    $savedFormat = 'files'\n} elseif ([System.Windows.Forms.Clipboard]::ContainsText()) {\n    $savedClip = [System.Windows.Forms.Clipboard]::GetText()\n    $savedFormat = 'text'\n}\n\n# Set our text and paste\n[System.Windows.Forms.Clipboard]::SetText('";

/// The clipboard script after the text: it closes the literal, sends
/// Ctrl+V, waits, and restores the saved clipboard (or clears it).
pub const PASTE_SCRIPT_TAIL: &'static str = "')\nStart-Sleep -Milliseconds 50\n[System.Windows.Forms.SendKeys]::SendWait('^v')\nStart-Sleep -Milliseconds 200\n\n# Restore previous clipboard content\nif ($savedFormat -eq 'image' -and $savedClip -ne $null) {\n    [System.Windows.Forms.Clipboard]::SetImage($savedClip)\n} elseif ($savedFormat -eq 'files' -and $savedClip -ne $null) {\n    [System.Windows.Forms.Clipboard]::SetFileDropList($savedClip)\n} elseif ($savedFormat -eq 'text' -and $savedClip -ne $null) {\n    [System.Windows.Forms.Clipboard]::SetText($savedClip)\n} else {\n    [System.Windows.Forms.Clipboard]::Clear()\n}\n";

/// Characters PowerShell takes as a single quote: `'` and the typographic
/// single quotes U+2018 to U+201B.
pub open spec fn is_ps_quote(c: char) -> bool {
    c == '\'' || (0x2018 <= (c as u32) <= 0x201b)
}

/// `s` with every PowerShell single-quote character doubled, as a
/// single-quoted literal needs.
pub open spec fn escape_quotes(s: Seq<char>) -> Seq<char>
    decreases s.len(),
{
    if s.len() == 0 {
        s
    } else {
        (if is_ps_quote(s[0]) {
            seq![s[0], s[0]]
        } else {
            seq![s[0]]
        }) + escape_quotes(s.drop_first())
    }
}

/// What PowerShell reads from the body of a single-quoted literal: two
/// quote characters in a row stand for the second of them; a lone quote
/// character would end the literal early (`None`).
pub open spec fn ps_literal_body(e: Seq<char>) -> Option<Seq<char>>
    decreases e.len(),
{
    if e.len() == 0 {
        Some(e)
    } else if is_ps_quote(e[0]) {
        if e.len() >= 2 && is_ps_quote(e[1]) {
            match ps_literal_body(e.subrange(2, e.len() as int)) {
                Some(r) => Some(seq![e[1]] + r),
                None => None,
            }
        } else {
            None
        }
    } else {
        match ps_literal_body(e.drop_first()) {
            Some(r) => Some(seq![e[0]] + r),
            None => None,
        }
    }
}

/// Doubles every PowerShell single-quote character in `text`.
pub fn escape_single_quotes(text: &str) -> (r: String)
    ensures
        r@ == escape_quotes(text@),
{
    let v = chars_of(text);
    let n = v.len();
    let mut out: Vec<char> = Vec::new();
    let mut k: usize = 0;
    assert(text@.subrange(0, n as int) =~= text@);
    assert(out@ + escape_quotes(text@) =~= escape_quotes(text@));
    while k < n
        invariant
            k <= n,
            n == v@.len(),
            v@ == text@,
            escape_quotes(text@) == out@ + escape_quotes(text@.subrange(k as int, n as int)),
        decreases n - k,
    {
        let ghost rest = text@.subrange(k as int, n as int);
        assert(rest.drop_first() =~= text@.subrange(k + 1, n as int));
        let c = v[k];
        let u = c as u32;
        if c == '\'' || (0x2018 <= u && u <= 0x201b) {
            out.push(c);
            out.push(c);
        } else {
            out.push(v[k]);
        }
        assert(escape_quotes(text@) =~= out@ + escape_quotes(text@.subrange(k + 1, n as int)));
        k = k + 1;
    }
    assert(text@.subrange(n as int, n as int) =~= Seq::<char>::empty());
    assert(out@ + Seq::<char>::empty() =~= out@);
    string_from_chars(out.as_slice())
}

/// The PowerShell script that pastes `text` into the focused window while
/// keeping the user's clipboard: the text goes, quote-escaped, into the
/// literal between the two fixed parts.
pub fn paste_script(text: &str) -> (r: String)
    ensures
        r@ == PASTE_SCRIPT_HEAD@ + escape_quotes(text@) + PASTE_SCRIPT_TAIL@,
{
    let escaped = escape_single_quotes(text);
    String::from_str(PASTE_SCRIPT_HEAD).concat(escaped.as_str()).concat(PASTE_SCRIPT_TAIL)
}

/// The arguments PowerShell is started with to run a script.
pub fn powershell_args(script: &str) -> (r: Vec<String>)
    ensures
        r@.len() == 5,
        r@[0]@ == "-NoProfile"@,
        r@[1]@ == "-NonInteractive"@,
        r@[2]@ == "-STA"@,
        r@[3]@ == "-Command"@,
        r@[4]@ == script@,
{
    let mut r: Vec<String> = Vec::new();
    r.push(String::from_str("-NoProfile"));
    r.push(String::from_str("-NonInteractive"));
    r.push(String::from_str("-STA"));
    r.push(String::from_str("-Command"));
    r.push(String::from_str(script));
    r
}

/// The result of pasting from how the script ran: the error of a
/// PowerShell that could not be started, or whether it succeeded and its
/// error output.
pub fn paste_result(outcome: Result<(bool, String), String>) -> (r: Result<(), String>)
    ensures
        match outcome {
            Err(e) => r matches Err(m) && m@ == "Failed to paste: "@ + e@,
            Ok((true, _)) => r is Ok,
            Ok((false, stderr)) => r matches Err(m) && m@ == "Paste failed: "@ + stderr@,
        },
{
    match outcome {
        Err(e) => Err(String::from_str("Failed to paste: ").concat(e.as_str())),
        Ok((success, stderr)) => if success {
            Ok(())
        } else {
            Err(String::from_str("Paste failed: ").concat(stderr.as_str()))
        },
    }
}

/// PowerShell reads back from the escaped literal exactly the text that
/// was escaped, whatever quote characters it holds.
pub proof fn law_escape_round_trip(t: Seq<char>)
    ensures
        ps_literal_body(escape_quotes(t)) == Some(t),
    decreases t.len(),
{
    if t.len() > 0 {
        let rest = t.drop_first();
        law_escape_round_trip(rest);
        let e = escape_quotes(t);
        if is_ps_quote(t[0]) {
            assert(e.subrange(2, e.len() as int) =~= escape_quotes(rest));
            assert(seq![t[0]] + rest =~= t);
        } else {
            assert(e.drop_first() =~= escape_quotes(rest));
            assert(seq![t[0]] + rest =~= t);
        }
    }
}

} // verus!
