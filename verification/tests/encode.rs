use dsh_desktop::encode::{error_hash, pct, shell_url};

#[test]
fn pct_keeps_unreserved_characters() {
    assert_eq!(pct("AZaz09-_.~"), "AZaz09-_.~");
    assert_eq!(pct(""), "");
}

#[test]
fn pct_escapes_everything_else_in_upper_case_hex() {
    assert_eq!(pct("a b&c=d#e?f"), "a%20b%26c%3Dd%23e%3Ff");
    assert_eq!(pct("%"), "%25");
    assert_eq!(pct("\u{7f}\n"), "%7F%0A");
}

#[test]
fn pct_encodes_utf8_bytes() {
    assert_eq!(pct("é"), "%C3%A9");
    assert_eq!(pct("端口"), "%E7%AB%AF%E5%8F%A3");
}

#[test]
fn pct_decodes_back() {
    fn decode(s: &str) -> Vec<u8> {
        let b = s.as_bytes();
        let mut out = Vec::new();
        let mut i = 0;
        while i < b.len() {
            if b[i] == b'%' {
                out.push(u8::from_str_radix(std::str::from_utf8(&b[i + 1..i + 3]).unwrap(), 16).unwrap());
                i += 3;
            } else {
                out.push(b[i]);
                i += 1;
            }
        }
        out
    }
    for s in ["", "abc", "a b", "无法启动 dsh：x", "%%%", "~-_."] {
        assert_eq!(decode(&pct(s)), s.as_bytes());
    }
}

#[test]
fn error_hash_joins_encoded_code_and_message() {
    assert_eq!(
        error_hash("upgrade-failed", "a&b"),
        "error?code=upgrade-failed&message=a%26b"
    );
    assert_eq!(error_hash("", ""), "error?code=&message=");
}

#[test]
fn shell_url_in_release_uses_tauri_localhost() {
    assert_eq!(
        shell_url(false, Some("http://localhost:1420"), "stopped"),
        Some("http://tauri.localhost/#stopped".to_string())
    );
    assert_eq!(
        shell_url(false, None, "close-dialog"),
        Some("http://tauri.localhost/#close-dialog".to_string())
    );
}

#[test]
fn shell_url_in_debug_uses_dev_server() {
    assert_eq!(
        shell_url(true, Some("http://localhost:1420"), "upgrading"),
        Some("http://localhost:1420/#upgrading".to_string())
    );
    assert_eq!(shell_url(true, None, "upgrading"), None);
}
