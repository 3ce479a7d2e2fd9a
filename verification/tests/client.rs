use nts_client::config::{
    build_client_config, resolve_addr_preference, select_trust_anchor, AddrPreference,
    CertLoadError, Certificate,
};
use nts_client::orchestrator::{
    after_key_establishment, after_time_sync, KeError, NextStep, NtpError, Report,
};
use nts_client::report::{decimal, format_offset_line, format_stratum_line, padded_decimal,
    signed_decimal, TimeSyncResult};

fn cert(tag: u8) -> Certificate {
    Certificate { der: vec![tag, tag, tag] }
}

#[test]
fn ipv4_flag_forces_ipv4() {
    assert_eq!(resolve_addr_preference(true, false), AddrPreference::ForceIpv4);
    assert_eq!(resolve_addr_preference(true, true), AddrPreference::ForceIpv4);
}

#[test]
fn ipv6_flag_alone_forces_ipv6() {
    assert_eq!(resolve_addr_preference(false, true), AddrPreference::ForceIpv6);
}

#[test]
fn no_flags_no_preference() {
    assert_eq!(resolve_addr_preference(false, false), AddrPreference::NoPreference);
}

#[test]
fn no_bundle_no_anchor() {
    assert_eq!(select_trust_anchor(None), None);
}

#[test]
fn first_of_three_certificates_is_the_anchor() {
    let bundle = vec![cert(1), cert(2), cert(3)];
    assert_eq!(select_trust_anchor(Some(Ok(bundle))), Some(cert(1)));
}

#[test]
fn unreadable_bundle_yields_no_anchor() {
    assert_eq!(select_trust_anchor(Some(Err(CertLoadError::Unreadable))), None);
}

#[test]
fn malformed_bundle_yields_no_anchor() {
    assert_eq!(select_trust_anchor(Some(Err(CertLoadError::Malformed))), None);
}

#[test]
fn empty_bundle_yields_no_anchor() {
    assert_eq!(select_trust_anchor(Some(Ok(Vec::new()))), None);
}

#[test]
fn config_assembles_all_fields() {
    let c = build_client_config(
        String::from("time.example"),
        Some(String::from("4460")),
        Some(Ok(vec![cert(9), cert(8)])),
        false,
        true,
    );
    assert_eq!(c.host, "time.example");
    assert_eq!(c.port, Some(String::from("4460")));
    assert_eq!(c.trusted_cert, Some(cert(9)));
    assert_eq!(c.addr_preference, AddrPreference::ForceIpv6);
}

#[test]
fn config_without_cert_flag_has_no_anchor() {
    let c = build_client_config(String::from("time.example"), None, None, false, false);
    assert_eq!(c.trusted_cert, None);
    assert_eq!(c.port, None);
    assert_eq!(c.addr_preference, AddrPreference::NoPreference);
}

#[test]
fn config_with_missing_cert_file_has_no_anchor() {
    let c = build_client_config(
        String::from("time.example"),
        None,
        Some(Err(CertLoadError::Unreadable)),
        true,
        false,
    );
    assert_eq!(c.trusted_cert, None);
    assert_eq!(c.addr_preference, AddrPreference::ForceIpv4);
}

#[test]
fn ke_failure_finishes_with_code_125() {
    let step = after_key_establishment::<u64>(Err(KeError {
        detail: String::from("handshake refused"),
    }));
    match step {
        NextStep::Finish(rep) => {
            assert_eq!(rep.exit_code(), 125);
            match rep {
                Report::KeFailure { diagnostic } => {
                    assert_eq!(diagnostic, "failure of tls stage handshake refused");
                }
                other => panic!("wrong report: {:?}", other),
            }
        }
        NextStep::TimeSync(_) => panic!("time sync must not be reached"),
    }
}

#[test]
fn ke_success_hands_state_on_unchanged() {
    let state = vec![0xde_u8, 0xad, 0xbe, 0xef];
    let step = after_key_establishment(Ok(state.clone()));
    match step {
        NextStep::TimeSync(s) => assert_eq!(s, state),
        NextStep::Finish(rep) => panic!("run must continue, got {:?}", rep),
    }
}

#[test]
fn ntp_failure_reports_code_126() {
    let rep = after_time_sync(Err(NtpError { detail: String::from("no reply") }));
    assert_eq!(rep.exit_code(), 126);
    match rep {
        Report::NtpFailure { diagnostic } => {
            assert_eq!(diagnostic, "Failure of client no reply");
        }
        other => panic!("wrong report: {:?}", other),
    }
}

#[test]
fn success_reports_both_lines_and_code_0() {
    let rep = after_time_sync(Ok(TimeSyncResult { stratum: 2, time_diff_micros: 1234 }));
    assert_eq!(rep.exit_code(), 0);
    match rep {
        Report::Success { stratum_line, offset_line } => {
            assert_eq!(stratum_line, "stratum: 2");
            assert_eq!(offset_line, "offset: 0.001234");
        }
        other => panic!("wrong report: {:?}", other),
    }
}

#[test]
fn zero_offset_keeps_six_fraction_digits() {
    let t = TimeSyncResult { stratum: 0, time_diff_micros: 0 };
    assert_eq!(format_stratum_line(&t), "stratum: 0");
    assert_eq!(format_offset_line(&t), "offset: 0.000000");
}

#[test]
fn small_negative_offset_keeps_its_sign() {
    let t = TimeSyncResult { stratum: 3, time_diff_micros: -1234 };
    assert_eq!(format_offset_line(&t), "offset: -0.001234");
}

#[test]
fn offset_above_one_second_splits_at_the_point() {
    let t = TimeSyncResult { stratum: 1, time_diff_micros: 1_500_000 };
    assert_eq!(format_offset_line(&t), "offset: 1.500000");
    let t = TimeSyncResult { stratum: 1, time_diff_micros: -2_000_001 };
    assert_eq!(format_offset_line(&t), "offset: -2.000001");
}

#[test]
fn extreme_offsets_do_not_overflow() {
    let t = TimeSyncResult { stratum: 1, time_diff_micros: i64::MIN };
    assert_eq!(format_offset_line(&t), "offset: -9223372036854.775808");
    let t = TimeSyncResult { stratum: 1, time_diff_micros: i64::MAX };
    assert_eq!(format_offset_line(&t), "offset: 9223372036854.775807");
}

#[test]
fn negative_stratum_renders_signed() {
    let t = TimeSyncResult { stratum: -7, time_diff_micros: 0 };
    assert_eq!(format_stratum_line(&t), "stratum: -7");
}

#[test]
fn decimal_rendering() {
    assert_eq!(decimal(0), "0");
    assert_eq!(decimal(10), "10");
    assert_eq!(decimal(90210), "90210");
    assert_eq!(decimal(u64::MAX), "18446744073709551615");
}

#[test]
fn signed_decimal_rendering() {
    assert_eq!(signed_decimal(-5), "-5");
    assert_eq!(signed_decimal(5), "5");
    assert_eq!(signed_decimal(i64::MIN), "-9223372036854775808");
}

#[test]
fn padded_decimal_pads_and_truncates() {
    assert_eq!(padded_decimal(1234, 6), "001234");
    assert_eq!(padded_decimal(1234567, 6), "234567");
    assert_eq!(padded_decimal(0, 6), "000000");
    assert_eq!(padded_decimal(5, 0), "");
}
