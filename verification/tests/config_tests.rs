use rls_desktop::config::{
    default_kosync_port, default_opds_port, default_true, default_user, enc_key_from, gen_enc_key,
    gen_password, password_from,
    AppConfig, ENC_KEY_LEN, PASSWORD_CHARS, PASSWORD_LEN,
};

#[test]
fn defaults_match_the_documented_ports_and_user() {
    assert_eq!(default_opds_port(), 8080);
    assert_eq!(default_kosync_port(), 7200);
    assert_eq!(default_user(), "readloop");
    assert!(default_true());
}

#[test]
fn generated_password_is_sixteen_unambiguous_characters() {
    for _ in 0..50 {
        let p = gen_password();
        assert_eq!(p.chars().count(), PASSWORD_LEN);
        assert_eq!(p.chars().count(), 16);
        for c in p.chars() {
            assert!(PASSWORD_CHARS.contains(c));
            assert!(c.is_ascii_alphanumeric());
            assert!(!"0O1Il".contains(c), "ambiguous character {c}");
        }
    }
}

#[test]
fn generated_enc_key_is_64_lower_hex_digits() {
    for _ in 0..20 {
        let k = gen_enc_key();
        assert_eq!(k.len(), ENC_KEY_LEN);
        assert_eq!(k.len(), 64);
        assert!(k.chars().all(|c| c.is_ascii_digit() || ('a'..='f').contains(&c)));
    }
}

#[test]
fn fresh_config_has_defaults_and_no_token() {
    let c = AppConfig::default();
    assert_eq!(c.readwise_token, "");
    assert_eq!(c.opds_port, 8080);
    assert_eq!(c.kosync_port, 7200);
    assert_eq!(c.opds_user, "readloop");
    assert_eq!(c.kosync_user, "readloop");
    assert_eq!(c.opds_pass.len(), 16);
    assert_eq!(c.kosync_pass.len(), 16);
    assert_eq!(c.seed_secret.len(), 16);
    assert_eq!(c.token_enc_key.len(), 64);
    assert_eq!(c.x3_host, "");
    assert!(c.autostart_services);
    assert!(!c.is_configured());
}

#[test]
fn token_is_stored_trimmed_and_gates_configuration() {
    let mut c = AppConfig::default();
    c.set_token("   \t\n ");
    assert_eq!(c.readwise_token, "");
    assert!(!c.is_configured());
    c.set_token("  abc123 \n");
    assert_eq!(c.readwise_token, "abc123");
    assert!(c.is_configured());
    c.set_token("\u{3000}tok\u{a0}");
    assert_eq!(c.readwise_token, "tok");
}

#[test]
fn token_of_only_unicode_white_space_is_not_a_token() {
    let mut c = AppConfig::default();
    c.readwise_token = "\u{2003}\u{85}\u{2028}".to_string();
    assert!(!c.is_configured());
    c.readwise_token = " x ".to_string();
    assert!(c.is_configured());
}

#[test]
fn setting_host_and_autostart_touches_only_that_field() {
    let mut c = AppConfig::default();
    let before = c.clone();
    c.set_x3_host("  192.168.1.77  ");
    assert_eq!(c.x3_host, "192.168.1.77");
    c.set_autostart(false);
    assert!(!c.autostart_services);
    assert_eq!(c.opds_pass, before.opds_pass);
    assert_eq!(c.token_enc_key, before.token_enc_key);
    assert_eq!(c.readwise_token, before.readwise_token);
}

#[test]
fn config_file_lives_in_the_config_dir() {
    assert_eq!(AppConfig::path("/home/u/.config/readloop"), "/home/u/.config/readloop/config.json");
    assert_eq!(AppConfig::path("/tmp/cfg/"), "/tmp/cfg/config.json");
    assert_eq!(AppConfig::path("/cfg"), "/cfg/config.json");
}

#[test]
fn stored_config_is_kept_and_missing_one_is_fresh() {
    let mut c = AppConfig::default();
    c.set_token("abc");
    let (kept, write_back) = AppConfig::from_stored(Some(c.clone()));
    assert!(!write_back);
    assert_eq!(kept.readwise_token, "abc");
    assert_eq!(kept.opds_pass, c.opds_pass);
    let (fresh, write_back) = AppConfig::from_stored(None);
    assert!(write_back);
    assert!(!fresh.is_configured());
    assert_eq!(fresh.opds_port, 8080);
}

#[test]
fn drawn_indices_spell_the_secrets() {
    assert_eq!(password_from(&vec![0, 1, 56, 24]), "AB9a");
    assert_eq!(password_from(&vec![]), "");
    assert_eq!(enc_key_from(&vec![0, 9, 10, 15]), "09af");
}
