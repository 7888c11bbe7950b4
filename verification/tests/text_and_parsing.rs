use deepseek_harness_client::lines::{last_word_of, split_lines};
use deepseek_harness_client::netstat::port_listener_pid;
use deepseek_harness_client::powershell::{
    classify_download_line, download_failure_detail, node_download_command, powershell_literal,
    DownloadLine, NODE_DOWNLOAD_SCRIPT,
};
use deepseek_harness_client::text::{
    chars_of, contains, parse_u32, parse_u8, push_decimal, same_text, string_of, strip_prefix, trim,
};

fn v(s: &str) -> Vec<char> {
    s.chars().collect()
}

fn s(v: &[char]) -> String {
    v.iter().collect()
}

#[test]
fn chars_round_trip_through_string() {
    let c = chars_of("节点 node");
    assert_eq!(c, v("节点 node"));
    assert_eq!(string_of(&c), "节点 node");
}

#[test]
fn trim_removes_unicode_white_space_on_both_sides() {
    assert_eq!(s(&trim(&v("  \t PROGRESS:5 \r\n"))), "PROGRESS:5");
    assert_eq!(s(&trim(&v("\u{3000}全角\u{a0}"))), "全角");
    assert_eq!(s(&trim(&v("   "))), "");
    assert_eq!(s(&trim(&v("a b"))), "a b");
}

#[test]
fn contains_finds_substrings() {
    assert!(contains(&v("  TCP 0.0.0.0:3080 LISTENING"), &v(":3080")));
    assert!(!contains(&v("  TCP 0.0.0.0:308"), &v(":3080")));
    assert!(contains(&v("abc"), &v("")));
    assert!(!contains(&v(""), &v("a")));
}

#[test]
fn strip_prefix_splits_off_a_prefix() {
    assert_eq!(strip_prefix(&v("PROGRESS:12"), &v("PROGRESS:")).map(|r| s(&r)), Some("12".to_string()));
    assert_eq!(strip_prefix(&v("PROGRES"), &v("PROGRESS:")), None);
}

#[test]
fn parse_u8_matches_str_parse() {
    for text in ["0", "7", "007", "+42", "255", "256", "", "+", "-1", "1a", " 1", "99999999999"] {
        assert_eq!(parse_u8(&v(text)), text.parse::<u8>().ok(), "input {:?}", text);
    }
}

#[test]
fn parse_u32_matches_str_parse() {
    for text in ["0", "4294967295", "4294967296", "12345", "+9", "-0", "00000000001", "x"] {
        assert_eq!(parse_u32(&v(text)), text.parse::<u32>().ok(), "input {:?}", text);
    }
}

#[test]
fn decimal_matches_display() {
    for n in [0u64, 7, 10, 255, 3080, 4294967295, u64::MAX] {
        let mut out = Vec::new();
        push_decimal(&mut out, n);
        assert_eq!(s(&out), n.to_string());
    }
}

#[test]
fn decimal_reads_back() {
    for n in [0u32, 9, 10, 12345, u32::MAX] {
        let mut out = Vec::new();
        push_decimal(&mut out, n as u64);
        assert_eq!(parse_u32(&out), Some(n));
    }
}

#[test]
fn same_text_compares_characters() {
    assert!(same_text("mirror", "mirror"));
    assert!(!same_text("mirror", "Mirror"));
}

#[test]
fn split_lines_matches_str_lines() {
    for text in ["", "a", "a\n", "a\r\nb", "a\n\nb\r\n", "\n", "x\r", "one\ntwo\r\nthree"] {
        let got: Vec<String> = split_lines(&v(text)).iter().map(|l| s(l)).collect();
        let want: Vec<String> = text.lines().map(|l| l.to_string()).collect();
        assert_eq!(got, want, "input {:?}", text);
    }
}

#[test]
fn last_word_matches_split_whitespace() {
    for text in ["  TCP    0.0.0.0:3080   0.0.0.0:0   LISTENING   4242  ", "", "   ", "one", "a\tb"] {
        let got = last_word_of(&v(text)).map(|w| s(&w));
        let want = text.split_whitespace().last().map(|w| w.to_string());
        assert_eq!(got, want, "input {:?}", text);
    }
}

#[test]
fn listener_pid_is_found_in_netstat_output() {
    let out = "\r\nActive Connections\r\n\r\n  Proto  Local Address          Foreign Address        State           PID\r\n  TCP    0.0.0.0:135            0.0.0.0:0              LISTENING       1000\r\n  TCP    127.0.0.1:3080         0.0.0.0:0              LISTENING       4242\r\n  TCP    127.0.0.1:3080         127.0.0.1:50000        ESTABLISHED     4242\r\n";
    assert_eq!(port_listener_pid(out), Some(4242));
}

#[test]
fn listener_pid_skips_lines_without_a_number() {
    let out = "  TCP 127.0.0.1:3080 0.0.0.0:0 LISTENING owner\n  TCP [::]:3080 [::]:0 LISTENING 77";
    assert_eq!(port_listener_pid(out), Some(77));
}

#[test]
fn listener_pid_needs_port_and_state() {
    assert_eq!(port_listener_pid("  TCP 127.0.0.1:3080 1.2.3.4:5 ESTABLISHED 10\n"), None);
    assert_eq!(port_listener_pid("  TCP 127.0.0.1:8080 0.0.0.0:0 LISTENING 10\n"), None);
    assert_eq!(port_listener_pid(""), None);
    assert_eq!(port_listener_pid("  TCP 0.0.0.0:3080 0.0.0.0:0 LISTENING 99999999999\n"), None);
}

#[test]
fn powershell_literal_doubles_quotes() {
    assert_eq!(powershell_literal("C:\\Users\\a"), "'C:\\Users\\a'");
    assert_eq!(powershell_literal("O'Brien"), "'O''Brien'");
    assert_eq!(powershell_literal(""), "''");
    assert_eq!(powershell_literal("''"), "''''''");
}

#[test]
fn download_command_binds_each_place() {
    let cmd = node_download_command("https://x/y.zip", "C:\\r\\y.zip", "C:\\r", "C:\\r\\node", "C:\\it's");
    let want = format!(
        "$url='https://x/y.zip'; $archive='C:\\r\\y.zip'; $runtimeRoot='C:\\r'; $runtimeDir='C:\\r\\node'; $staging='C:\\it''s'; {}",
        NODE_DOWNLOAD_SCRIPT
    );
    assert_eq!(cmd, want);
    assert!(NODE_DOWNLOAD_SCRIPT.contains("Write-Output \"PROGRESS:$pct\""));
}

#[test]
fn progress_lines_become_reports() {
    match classify_download_line("PROGRESS:50\r\n", "官方源") {
        DownloadLine::Progress { percent, message } => {
            assert_eq!(percent, 22);
            assert_eq!(message, "正在从官方源下载 Node.js 运行环境... 50%");
        }
        _ => panic!("expected progress"),
    }
    match classify_download_line("  PROGRESS: 100 ", "镜像源") {
        DownloadLine::Progress { percent, message } => {
            assert_eq!(percent, 40);
            assert_eq!(message, "正在从镜像源下载 Node.js 运行环境... 100%");
        }
        _ => panic!("expected progress"),
    }
    match classify_download_line("PROGRESS:0", "x") {
        DownloadLine::Progress { percent, .. } => assert_eq!(percent, 5),
        _ => panic!("expected progress"),
    }
}

#[test]
fn other_lines_are_kept_or_dropped() {
    assert!(matches!(classify_download_line("PROGRESS:abc", "x"), DownloadLine::Ignored));
    assert!(matches!(classify_download_line("PROGRESS:300", "x"), DownloadLine::Ignored));
    assert!(matches!(classify_download_line("   \r\n", "x"), DownloadLine::Ignored));
    match classify_download_line("  Directory: C:\\r  \n", "x") {
        DownloadLine::Output(t) => assert_eq!(t, "Directory: C:\\r"),
        _ => panic!("expected output"),
    }
}

#[test]
fn failure_detail_is_the_last_error_line() {
    assert_eq!(download_failure_detail("first\r\nHTTP 404\r\n"), "HTTP 404");
    assert_eq!(download_failure_detail("only"), "only");
    assert_eq!(download_failure_detail(""), "未知网络或解压错误");
    assert_eq!(download_failure_detail("a\n\n"), "");
}

fn read_powershell_literal(l: &str) -> Option<String> {
    let body = l.strip_prefix('\'')?.strip_suffix('\'')?;
    let mut out = String::new();
    let mut chars = body.chars();
    while let Some(c) = chars.next() {
        if c == '\'' {
            if chars.next() != Some('\'') {
                return None;
            }
        }
        out.push(c);
    }
    Some(out)
}

#[test]
fn powershell_literal_reads_back() {
    for value in ["", "'", "a'b''c", "C:\\Program Files\\x", "它's"] {
        assert_eq!(read_powershell_literal(&powershell_literal(value)).as_deref(), Some(value));
    }
}

#[test]
fn download_percent_stays_between_five_and_forty() {
    let mut last = 0u8;
    for n in 0..=255u16 {
        let line = format!("PROGRESS:{n}");
        match classify_download_line(&line, "x") {
            DownloadLine::Progress { percent, .. } => {
                assert!((5..=40).contains(&percent));
                assert!(percent >= last);
                last = percent;
            }
            _ => panic!("expected progress"),
        }
    }
    assert_eq!(last, 40);
}
