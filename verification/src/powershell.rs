//! Quoting for PowerShell, the command that downloads Node.js, and the reading
//! of what that command prints.

use vstd::prelude::*;
use crate::lines::{lines_view, split_lines, text_lines};
use crate::text::{
    begins_with, chars_of, decimal, parse_u8, parse_unsigned, push_decimal, push_str,
    string_of, strip_prefix, trim, trim_both,
};

verus! {

/// `s` with every `'` doubled.
pub open spec fn ps_escape(s: Seq<char>) -> Seq<char>
    decreases s.len(),
{
    if s.len() == 0 {
        Seq::empty()
    } else if s[0] == '\'' {
        seq!['\'', '\''] + ps_escape(s.drop_first())
    } else {
        seq![s[0]] + ps_escape(s.drop_first())
    }
}

/// The single-quoted PowerShell string literal whose value is `s`.
pub open spec fn ps_literal(s: Seq<char>) -> Seq<char> {
    seq!['\''] + ps_escape(s) + seq!['\'']
}

/// The value of the body of a single-quoted PowerShell literal, in which `''`
/// stands for one `'`; `None` when a `'` stands alone.
pub open spec fn ps_unescape(t: Seq<char>) -> Option<Seq<char>>
    decreases t.len(),
{
    if t.len() == 0 {
        Some(Seq::empty())
    } else if t[0] == '\'' {
        if t.len() >= 2 && t[1] == '\'' {
            match ps_unescape(t.skip(2)) {
                Some(rest) => Some(seq!['\''] + rest),
                None => None,
            }
        } else {
            None
        }
    } else {
        match ps_unescape(t.drop_first()) {
            Some(rest) => Some(seq![t[0]] + rest),
            None => None,
        }
    }
}

/// The value of the single-quoted PowerShell literal `l`.
pub open spec fn ps_unquote(l: Seq<char>) -> Option<Seq<char>> {
    if l.len() >= 2 && l[0] == '\'' && l.last() == '\'' {
        ps_unescape(l.subrange(1, l.len() - 1))
    } else {
        None
    }
}

proof fn lemma_escape_concat(a: Seq<char>, b: Seq<char>)
    ensures
        ps_escape(a + b) == ps_escape(a) + ps_escape(b),
    decreases a.len(),
{
    if a.len() > 0 {
        assert((a + b).drop_first() == a.drop_first() + b);
        lemma_escape_concat(a.drop_first(), b);
    } else {
        assert(a + b == b);
    }
}

proof fn lemma_unescape_escape(s: Seq<char>)
    ensures
        ps_unescape(ps_escape(s)) == Some(s),
    decreases s.len(),
{
    if s.len() > 0 {
        lemma_unescape_escape(s.drop_first());
        let e = ps_escape(s);
        if s[0] == '\'' {
            assert(e.skip(2) == ps_escape(s.drop_first()));
        } else {
            assert(e.drop_first() == ps_escape(s.drop_first()));
        }
        assert(s == seq![s[0]] + s.drop_first());
    }
}

/// Reading back the literal that `powershell_literal` makes gives the value
/// it was made from.
pub proof fn lemma_powershell_literal_reads_back(s: Seq<char>)
    ensures
        ps_unquote(ps_literal(s)) == Some(s),
{
    let l = ps_literal(s);
    assert(l.subrange(1, l.len() - 1) == ps_escape(s));
    lemma_unescape_escape(s);
}

/// Different values give different PowerShell literals.
pub proof fn lemma_powershell_literal_injective(a: Seq<char>, b: Seq<char>)
    requires
        ps_literal(a) == ps_literal(b),
    ensures
        a == b,
{
    lemma_powershell_literal_reads_back(a);
    lemma_powershell_literal_reads_back(b);
}

/// The number of `'` in `s`.
pub open spec fn quote_count(s: Seq<char>) -> nat
    decreases s.len(),
{
    if s.len() == 0 {
        0
    } else {
        (if s[0] == '\'' { 1nat } else { 0nat }) + quote_count(s.drop_first())
    }
}

proof fn lemma_escape_len(s: Seq<char>)
    ensures
        ps_escape(s).len() == s.len() + quote_count(s),
    decreases s.len(),
{
    if s.len() > 0 {
        lemma_escape_len(s.drop_first());
    }
}

/// The literal of `s` opens and closes with `'`, is two characters longer than
/// `s` plus one for each `'` in `s`, and its body reads back as `s` with `''`
/// taken as `'` (so no `'` stands alone in it).
pub proof fn lemma_powershell_literal_form(s: Seq<char>)
    ensures
        ps_literal(s).len() == s.len() + 2 + quote_count(s),
        ps_literal(s)[0] == '\'',
        ps_literal(s).last() == '\'',
        ps_unescape(ps_literal(s).subrange(1, ps_literal(s).len() - 1)) == Some(s),
{
    lemma_escape_len(s);
    lemma_powershell_literal_reads_back(s);
}

/// Appends the PowerShell literal of `s` to `out`.
fn push_literal(out: &mut Vec<char>, s: &str)
    ensures
        final(out)@ == old(out)@ + ps_literal(s@),
{
    let v = chars_of(s);
    out.push('\'');
    let ghost start = out@;
    let mut i: usize = 0;
    while i < v.len()
        invariant
            i <= v.len(),
            out@ == start + ps_escape(v@.take(i as int)),
        decreases v.len() - i,
    {
        let c = v[i];
        proof {
            assert(v@.take(i + 1) == v@.take(i as int) + seq![c]);
            lemma_escape_concat(v@.take(i as int), seq![c]);
            assert(seq![c].drop_first() =~= Seq::<char>::empty());
            assert(ps_escape(Seq::<char>::empty()) =~= Seq::<char>::empty());
            assert(ps_escape(seq![c]) =~= if c == '\'' { seq!['\'', '\''] } else { seq![c] });
        }
        if c == '\'' {
            out.push('\'');
            out.push('\'');
        } else {
            out.push(c);
        }
        assert(out@ =~= start + ps_escape(v@.take(i + 1)));
        i = i + 1;
    }
    assert(v@.take(v.len() as int) == v@);
    out.push('\'');
    assert(out@ =~= old(out)@ + ps_literal(s@));
}

/// `value` as a single-quoted PowerShell string literal, with each `'` doubled.
pub fn powershell_literal(value: &str) -> (r: String)
    ensures
        r@ == ps_literal(value@),
{
    let mut out: Vec<char> = Vec::new();
    push_literal(&mut out, value);
    string_of(out.as_slice())
}

/// The PowerShell script that downloads the Node.js archive from `$url` with
/// progress lines `PROGRESS:<n>`, unpacks it through `$staging`, and moves it
/// to `$runtimeDir`.
pub const NODE_DOWNLOAD_SCRIPT: &'static str = r#"
$ErrorActionPreference = 'Stop'
New-Item -ItemType Directory -Force -Path $runtimeRoot | Out-Null
Remove-Item -LiteralPath $staging -Recurse -Force -ErrorAction SilentlyContinue
New-Item -ItemType Directory -Force -Path $staging | Out-Null
[System.Net.ServicePointManager]::SecurityProtocol = [System.Net.ServicePointManager]::SecurityProtocol -bor [System.Net.SecurityProtocolType]::Tls12
Add-Type -AssemblyName System.Net.Http
$client = New-Object System.Net.Http.HttpClient
try {
  $response = $client.GetAsync($url, [System.Net.Http.HttpCompletionOption]::ResponseHeadersRead).Result
  if (-not $response.IsSuccessStatusCode) { throw "HTTP $([int]$response.StatusCode)" }
  $total = $response.Content.Headers.ContentLength
  $stream = $response.Content.ReadAsStreamAsync().Result
  $fs = [System.IO.File]::Create($archive)
  $buffer = New-Object byte[] 81920
  $done = [long]0
  $lastPct = -1
  try {
    while ($true) {
      $read = $stream.Read($buffer, 0, $buffer.Length)
      if ($read -le 0) { break }
      $fs.Write($buffer, 0, $read)
      $done += $read
      if ($total -gt 0) {
        $pct = [int](($done * 100) / $total)
        if ($pct -ne $lastPct) { $lastPct = $pct; Write-Output "PROGRESS:$pct" }
      }
    }
  } finally {
    $fs.Dispose()
    $stream.Dispose()
    $response.Dispose()
  }
} finally {
  $client.Dispose()
}
Expand-Archive -LiteralPath $archive -DestinationPath $staging -Force
$root = Get-ChildItem -LiteralPath $staging -Directory | Select-Object -First 1
if ($null -eq $root -or -not (Test-Path -LiteralPath (Join-Path $root.FullName 'node.exe'))) {
  throw 'Downloaded Node.js archive did not contain node.exe'
}
Remove-Item -LiteralPath $runtimeDir -Recurse -Force -ErrorAction SilentlyContinue
New-Item -ItemType Directory -Force -Path $runtimeDir | Out-Null
Copy-Item -Path (Join-Path $root.FullName '*') -Destination $runtimeDir -Recurse -Force
Remove-Item -LiteralPath $staging -Recurse -Force -ErrorAction SilentlyContinue
Remove-Item -LiteralPath $archive -Force -ErrorAction SilentlyContinue
"#;

/// The PowerShell command that downloads Node.js from `url`: each location is
/// bound to its variable as a literal, then the download script follows.
pub open spec fn download_command(
    url: Seq<char>,
    archive: Seq<char>,
    runtime_root: Seq<char>,
    runtime_dir: Seq<char>,
    staging: Seq<char>,
) -> Seq<char> {
    "$url="@ + ps_literal(url) + "; $archive="@ + ps_literal(archive) + "; $runtimeRoot="@
        + ps_literal(runtime_root) + "; $runtimeDir="@ + ps_literal(runtime_dir) + "; $staging="@
        + ps_literal(staging) + "; "@ + NODE_DOWNLOAD_SCRIPT@
}

/// The PowerShell command that downloads Node.js from `url` into the given places.
pub fn node_download_command(
    url: &str,
    archive: &str,
    runtime_root: &str,
    runtime_dir: &str,
    staging: &str,
) -> (r: String)
    ensures
        r@ == download_command(url@, archive@, runtime_root@, runtime_dir@, staging@),
{
    let mut out: Vec<char> = Vec::new();
    push_str(&mut out, "$url=");
    push_literal(&mut out, url);
    push_str(&mut out, "; $archive=");
    push_literal(&mut out, archive);
    push_str(&mut out, "; $runtimeRoot=");
    push_literal(&mut out, runtime_root);
    push_str(&mut out, "; $runtimeDir=");
    push_literal(&mut out, runtime_dir);
    push_str(&mut out, "; $staging=");
    push_literal(&mut out, staging);
    push_str(&mut out, "; ");
    push_str(&mut out, NODE_DOWNLOAD_SCRIPT);
    assert(out@ =~= download_command(url@, archive@, runtime_root@, runtime_dir@, staging@));
    string_of(out.as_slice())
}

/// The overall percentage shown for a download at `n` percent: the download
/// spans 5 to 40 percent of the installation.
pub open spec fn download_percent(n: nat) -> nat {
    if 5 + n * 35 / 100 <= 40 {
        5 + n * 35 / 100
    } else {
        40
    }
}

/// The message shown while downloading Node.js from the source labelled `label`.
pub open spec fn download_progress_message(label: Seq<char>, n: nat) -> Seq<char> {
    "正在从"@ + label + "下载 Node.js 运行环境... "@ + decimal(n) + "%"@
}

/// What a line that the download command prints means.
pub enum DownloadLine {
    /// A progress report: the overall percentage and the message to show.
    Progress { percent: u8, message: String },
    /// Other output, trimmed.
    Output(String),
    /// Nothing to keep.
    Ignored,
}

/// A `DownloadLine` as plain values.
pub enum DownloadLineView {
    Progress(nat, Seq<char>),
    Output(Seq<char>),
    Ignored,
}

/// The view of a `DownloadLine`.
pub open spec fn download_line_view(d: DownloadLine) -> DownloadLineView {
    match d {
        DownloadLine::Progress { percent, message } => DownloadLineView::Progress(
            percent as nat,
            message@,
        ),
        DownloadLine::Output(s) => DownloadLineView::Output(s@),
        DownloadLine::Ignored => DownloadLineView::Ignored,
    }
}

/// The progress marker that the download script prints.
pub open spec fn progress_marker() -> Seq<char> {
    seq!['P', 'R', 'O', 'G', 'R', 'E', 'S', 'S', ':']
}

/// What the printed `line` means: after trimming, a `PROGRESS:` line with a
/// percentage that parses as a `u8` is a progress report (one that does not
/// parse is dropped), a non-empty line is output, and an empty one is dropped.
pub open spec fn classify_line(line: Seq<char>, label: Seq<char>) -> DownloadLineView {
    let t = trim_both(line);
    if begins_with(t, progress_marker()) {
        match parse_unsigned(trim_both(t.skip(9)), 255) {
            Some(n) => DownloadLineView::Progress(
                download_percent(n),
                download_progress_message(label, n),
            ),
            None => DownloadLineView::Ignored,
        }
    } else if t.len() > 0 {
        DownloadLineView::Output(t)
    } else {
        DownloadLineView::Ignored
    }
}

/// Reads one line printed by the download command, for the source labelled `label`.
pub fn classify_download_line(line: &str, label: &str) -> (r: DownloadLine)
    ensures
        download_line_view(r) == classify_line(line@, label@),
{
    let v = chars_of(line);
    let t = trim(v.as_slice());
    let marker = vec!['P', 'R', 'O', 'G', 'R', 'E', 'S', 'S', ':'];
    assert(marker@ == progress_marker());
    match strip_prefix(t.as_slice(), marker.as_slice()) {
        Some(rest) => {
            let digits = trim(rest.as_slice());
            match parse_u8(digits.as_slice()) {
                Some(n) => {
                    let scaled: u16 = 5u16 + (n as u16) * 35 / 100;
                    let percent: u8 = if scaled <= 40 { scaled as u8 } else { 40 };
                    let mut msg: Vec<char> = Vec::new();
                    push_str(&mut msg, "正在从");
                    push_str(&mut msg, label);
                    push_str(&mut msg, "下载 Node.js 运行环境... ");
                    push_decimal(&mut msg, n as u64);
                    push_str(&mut msg, "%");
                    assert(msg@ =~= download_progress_message(label@, n as nat));
                    DownloadLine::Progress { percent, message: string_of(msg.as_slice()) }
                },
                None => DownloadLine::Ignored,
            }
        },
        None => {
            if t.len() > 0 {
                DownloadLine::Output(string_of(t.as_slice()))
            } else {
                DownloadLine::Ignored
            }
        },
    }
}

/// The detail shown when a download failed: the last line of what it wrote
/// to standard error, or a fixed text when it wrote nothing.
pub open spec fn failure_detail(stderr: Seq<char>) -> Seq<char> {
    let ls = text_lines(stderr);
    if ls.len() > 0 {
        ls.last()
    } else {
        "未知网络或解压错误"@
    }
}

/// The detail shown when a download failed, from its standard error text.
pub fn download_failure_detail(stderr: &str) -> (r: String)
    ensures
        r@ == failure_detail(stderr@),
{
    let v = chars_of(stderr);
    let lines = split_lines(v.as_slice());
    if lines.len() > 0 {
        let last = lines.len() - 1;
        assert(lines_view(lines@).last() == lines@[last as int]@);
        string_of(lines[last].as_slice())
    } else {
        String::from_str("未知网络或解压错误")
    }
}

} // verus!
