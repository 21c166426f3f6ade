//! Tests of the hex formatter, number rendering, identifier resolution,
//! general-name formatting, DER length framing, and the viewer state
//! machine.

use inspect_cert_chain::asn1::{wrap_in_asn1_len, wrap_in_sequence};
use inspect_cert_chain::hexfmt::{openssl_hex, openssl_hex_joined};
use inspect_cert_chain::names::{fmt_general_name, ip_text, AltName};
use inspect_cert_chain::oids::{get_oid_desc, oid_desc_or_raw};
use inspect_cert_chain::strutil::{join_with, read_be_uint, u128_to_dec, u128_to_hex, u64_to_dec};
use inspect_cert_chain::viewer::{count_report_lines, KeyInput, MouseInput, ViewerState};

#[test]
fn hex_empty_input_has_no_lines() {
    let lines = openssl_hex(&[], 4);
    assert_eq!(lines.len(), 0);
    assert_eq!(openssl_hex_joined(&[], 4, "\n"), "");
}

#[test]
fn hex_full_line_has_no_trailing_colon() {
    let lines = openssl_hex(&[0xaa, 0xbb], 2);
    assert_eq!(lines, vec!["aa:bb".to_string()]);
}

#[test]
fn hex_width_one_splits_every_byte() {
    let lines = openssl_hex(&[1, 2, 3], 1);
    assert_eq!(lines, vec!["01".to_string(), "02".to_string(), "03".to_string()]);
}

#[test]
fn hex_partial_last_line() {
    let lines = openssl_hex(&[0, 1, 2, 3, 4], 2);
    assert_eq!(
        lines,
        vec!["00:01".to_string(), "02:03".to_string(), "04".to_string()]
    );
    assert_eq!(openssl_hex_joined(&[0, 1, 2, 3, 4], 2, "\n  "), "00:01\n  02:03\n  04");
}

#[test]
fn hex_line_count_is_ceiling() {
    for len in 0..40usize {
        for width in 1..9usize {
            let bytes = vec![0x5au8; len];
            let lines = openssl_hex(&bytes, width);
            assert_eq!(lines.len(), (len + width - 1) / width);
            for line in &lines {
                // each line holds at most `width` bytes, 3 chars per byte
                // minus the trailing colon
                assert!(line.len() <= 3 * width - 1);
                assert!(!line.starts_with(':') && !line.ends_with(':'));
            }
        }
    }
}

#[test]
fn decimal_and_hex_rendering() {
    assert_eq!(u128_to_dec(0), "0");
    assert_eq!(u128_to_dec(65537), "65537");
    assert_eq!(u64_to_dec(18446744073709551615), "18446744073709551615");
    assert_eq!(u128_to_hex(0), "0");
    assert_eq!(u128_to_hex(65537), "10001");
    assert_eq!(u128_to_hex(0xdeadbeef), "deadbeef");
}

#[test]
fn join_with_separator() {
    let items = vec!["a".to_string(), "b".to_string(), "c".to_string()];
    assert_eq!(join_with(&items, ", "), "a, b, c");
    assert_eq!(join_with(&vec![], ", "), "");
    assert_eq!(join_with(&vec!["x".to_string()], ", "), "x");
}

#[test]
fn read_be_uint_values() {
    assert_eq!(read_be_uint(&[0x01, 0x00, 0x01]), 65537);
    assert_eq!(read_be_uint(&[0xff]), 255);
    assert_eq!(
        read_be_uint(&[0xff, 0xff, 0xff, 0xff, 0xff, 0xff, 0xff, 0xff]),
        u64::MAX
    );
}

#[test]
fn builtin_table_prefers_its_own_label() {
    assert_eq!(get_oid_desc(&"2.5.29.14".to_string()), Some("Subject Key Identifier"));
    assert_eq!(get_oid_desc(&"1.2.840.113549.1.1.11".to_string()), None);
    assert_eq!(
        oid_desc_or_raw(&"2.5.29.14".to_string()),
        "Subject Key Identifier"
    );
}

#[test]
fn database_labels_fill_the_gap() {
    // not in the built-in table, but in the const-oid database
    assert_eq!(
        oid_desc_or_raw(&"1.2.840.113549.1.1.11".to_string()),
        "sha256WithRSAEncryption"
    );
    assert_eq!(oid_desc_or_raw(&"1.2.840.113549.1.1.1".to_string()), "rsaEncryption");
}

#[test]
fn unknown_identifier_falls_back_to_itself() {
    assert_eq!(oid_desc_or_raw(&"1.2.3.4.56789".to_string()), "1.2.3.4.56789");
}

#[test]
fn resolution_is_deterministic_and_nonempty() {
    for oid in ["2.5.29.15", "1.3.6.1.5.5.7.48.1", "1.2.840.10045.2.1", "9.9.9.9"] {
        let a = oid_desc_or_raw(&oid.to_string());
        let b = oid_desc_or_raw(&oid.to_string());
        assert_eq!(a, b);
        assert!(!a.is_empty());
    }
}

#[test]
fn ipv4_renders_dotted_decimal() {
    assert_eq!(ip_text(&vec![127, 0, 0, 1]), "127.0.0.1");
    assert_eq!(fmt_general_name(&AltName::Ip(vec![192, 168, 10, 250])), "IP:192.168.10.250");
}

#[test]
fn ipv6_renders_colon_hex() {
    let mut b = vec![0u8; 16];
    b[0] = 0x20;
    b[1] = 0x01;
    b[2] = 0x0d;
    b[3] = 0xb8;
    b[15] = 0x01;
    assert_eq!(ip_text(&b), "2001:db8::1");
    assert_eq!(ip_text(&vec![0u8; 16]), "::");
    let all = vec![0x11u8; 16];
    assert_eq!(ip_text(&all), "1111:1111:1111:1111:1111:1111:1111:1111");
}

#[test]
fn ip_other_lengths_render_diagnostically() {
    assert_eq!(ip_text(&vec![1, 2, 3, 4, 5]), "<01:02:03:04:05>");
    assert_eq!(fmt_general_name(&AltName::Ip(vec![])), "IP:<>");
}

#[test]
fn general_name_tagged_forms() {
    assert_eq!(fmt_general_name(&AltName::Dns("example.com".to_string())), "DNS:example.com");
    assert_eq!(fmt_general_name(&AltName::Rfc822("a@b.c".to_string())), "RFC:a@b.c");
    assert_eq!(
        fmt_general_name(&AltName::Uri("https://example.com".to_string())),
        "URI:https://example.com"
    );
    assert_eq!(fmt_general_name(&AltName::Directory("CN=x".to_string())), "DIR:CN=x");
    assert_eq!(fmt_general_name(&AltName::Other("(opaque)".to_string())), "OTHER(opaque)");
    assert_eq!(fmt_general_name(&AltName::EdiParty("(opaque)".to_string())), "EDI:(opaque)");
    assert_eq!(
        fmt_general_name(&AltName::RegisteredId("2.23.140.1.2.1".to_string())),
        "Domain Validated"
    );
}

#[test]
fn asn1_len_short_form() {
    let mut v = vec![0xeeu8; 5];
    wrap_in_asn1_len(&mut v);
    assert_eq!(v[0], 5);
    assert_eq!(v.len(), 6);
}

#[test]
fn asn1_len_long_form_one_byte() {
    let mut v = vec![0x00u8; 200];
    wrap_in_asn1_len(&mut v);
    assert_eq!(&v[..2], &[0x81, 200]);
    assert_eq!(v.len(), 202);
}

#[test]
fn asn1_len_long_form_two_bytes() {
    let mut v = vec![0x00u8; 256];
    wrap_in_asn1_len(&mut v);
    assert_eq!(&v[..3], &[0x82, 0x01, 0x00]);
    assert_eq!(v.len(), 259);
}

#[test]
fn sequence_wrap_prepends_tag() {
    let mut v = vec![0x01u8, 0x02];
    wrap_in_sequence(&mut v);
    assert_eq!(v, vec![0x30, 0x02, 0x01, 0x02]);
}

#[test]
fn viewer_selection_moves_and_clamps() {
    let mut st = ViewerState::new(vec![10, 20, 30]);
    assert_eq!(st.selected, 0);
    st.handle_key_event(KeyInput::Char('j'));
    assert_eq!(st.selected, 1);
    st.handle_key_event(KeyInput::Char('j'));
    st.handle_key_event(KeyInput::Char('j'));
    assert_eq!(st.selected, 2);
    st.handle_key_event(KeyInput::Char('k'));
    assert_eq!(st.selected, 1);
    st.handle_key_event(KeyInput::Char('k'));
    st.handle_key_event(KeyInput::Char('k'));
    assert_eq!(st.selected, 0);
}

#[test]
fn viewer_scroll_clamps_to_report_length() {
    let mut st = ViewerState::new(vec![3]);
    st.handle_key_event(KeyInput::Down);
    st.handle_key_event(KeyInput::Down);
    st.handle_key_event(KeyInput::Down);
    st.handle_key_event(KeyInput::Down);
    assert_eq!(st.details_scroll, 2);
    st.handle_key_event(KeyInput::Up);
    assert_eq!(st.details_scroll, 1);
    st.handle_key_event(KeyInput::Up);
    st.handle_key_event(KeyInput::Up);
    assert_eq!(st.details_scroll, 0);
}

#[test]
fn viewer_selection_resets_scroll() {
    let mut st = ViewerState::new(vec![5, 5]);
    st.handle_key_event(KeyInput::Down);
    assert_eq!(st.details_scroll, 1);
    st.handle_key_event(KeyInput::Char('j'));
    assert_eq!(st.details_scroll, 0);
}

#[test]
fn viewer_quit_keys() {
    let mut st = ViewerState::new(vec![1]);
    assert!(!st.exit);
    st.handle_key_event(KeyInput::Char('q'));
    assert!(st.exit);
    let mut st2 = ViewerState::new(vec![1]);
    st2.handle_key_event(KeyInput::Ctrl('c'));
    assert!(st2.exit);
    let mut st3 = ViewerState::new(vec![1]);
    st3.handle_key_event(KeyInput::Char('x'));
    assert!(!st3.exit);
}

#[test]
fn viewer_mouse_scrolls_without_clamp() {
    let mut st = ViewerState::new(vec![2]);
    st.handle_mouse_event(MouseInput::ScrollDown);
    st.handle_mouse_event(MouseInput::ScrollDown);
    st.handle_mouse_event(MouseInput::ScrollDown);
    assert_eq!(st.details_scroll, 3);
    st.handle_mouse_event(MouseInput::ScrollUp);
    assert_eq!(st.details_scroll, 2);
    st.handle_mouse_event(MouseInput::Other);
    assert_eq!(st.details_scroll, 2);
}

#[test]
fn report_line_counting() {
    assert_eq!(count_report_lines(""), 0);
    assert_eq!(count_report_lines("a"), 1);
    assert_eq!(count_report_lines("a\n"), 1);
    assert_eq!(count_report_lines("a\nb"), 2);
    assert_eq!(count_report_lines("a\nb\n"), 2);
    assert_eq!(count_report_lines("\n\n"), 2);
}
