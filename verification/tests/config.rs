//! Reading the deployment settings from a TOML document.
use websubmit_boxed::config::{Config, ConfigError};
use websubmit_boxed::cli::{config_path, DEFAULT_CONFIG_PATH};

const SAMPLE: &str = r#"
class = "CSCI 2390"
db_addr = "127.0.0.1:3306"
db_name = "websubmit"
db_user = "root"
db_password = "pass"
admins = ["admin@bu.edu", "second@bu.edu"]
staff = ["ta@bu.edu"]
template_dir = "templates"
resource_dir = "resources"
secret = "SECRET-REDACTED"
anthropic_api_key = "none"
send_emails = false
smtp_server = "smtp.bu.edu"
smtp_port = 587
smtp_user = ""
smtp_password = ""
smtp_from = "noreply@bu.edu"
prime = true
"#;

fn with(extra: &str) -> String {
    format!("{}{}\n", SAMPLE, extra)
}

fn without(key: &str) -> String {
    SAMPLE
        .lines()
        .filter(|l| !l.starts_with(&format!("{} =", key)))
        .collect::<Vec<_>>()
        .join("\n")
}

#[test]
fn a_complete_config_is_read_field_by_field() {
    let c = Config::parse(SAMPLE).unwrap();
    assert_eq!(c.class, "CSCI 2390");
    assert_eq!(c.port, 8000, "an absent port defaults to 8000");
    assert_eq!(c.db_addr, "127.0.0.1:3306");
    assert_eq!(c.db_name, "websubmit");
    assert_eq!(c.db_user, "root");
    assert_eq!(c.db_password, "pass");
    assert_eq!(c.admins, vec!["admin@bu.edu".to_string(), "second@bu.edu".to_string()]);
    assert_eq!(c.staff, vec!["ta@bu.edu".to_string()]);
    assert_eq!(c.email_domain, None);
    assert_eq!(c.template_dir, "templates");
    assert_eq!(c.resource_dir, "resources");
    assert_eq!(c.secret, "SECRET-REDACTED");
    assert_eq!(c.anthropic_api_key, "none");
    assert!(!c.send_emails);
    assert_eq!(c.smtp_server, "smtp.bu.edu");
    assert_eq!(c.smtp_port, 587);
    assert_eq!(c.smtp_user, "");
    assert_eq!(c.smtp_password, "");
    assert_eq!(c.smtp_from, "noreply@bu.edu");
    assert!(c.prime);
}

#[test]
fn the_port_and_email_domain_are_optional() {
    let c = Config::parse(&with("port = 8080\nemail_domain = \"@bu.edu\"")).unwrap();
    assert_eq!(c.port, 8080);
    assert_eq!(c.email_domain, Some("@bu.edu".to_string()));
}

#[test]
fn a_port_out_of_range_is_refused() {
    assert_eq!(Config::parse(&with("port = 70000")).err(), Some(ConfigError::Invalid));
    assert_eq!(Config::parse(&with("port = -1")).err(), Some(ConfigError::Invalid));
    assert_eq!(Config::parse(&with("port = \"80\"")).err(), Some(ConfigError::Invalid));
    assert_eq!(Config::parse(&with("port = 65535")).unwrap().port, 65535);
}

#[test]
fn the_smtp_port_is_truncated_to_sixteen_bits() {
    let text = without("smtp_port") + "\nsmtp_port = 65561\n";
    assert_eq!(Config::parse(&text).unwrap().smtp_port, 25);
}

#[test]
fn text_that_is_not_toml_is_unparsable() {
    assert_eq!(Config::parse("class = ").err(), Some(ConfigError::Unparsable));
    assert_eq!(Config::parse("[[[").err(), Some(ConfigError::Unparsable));
}

#[test]
fn a_missing_or_mistyped_setting_is_invalid() {
    for key in ["class", "db_addr", "anthropic_api_key", "admins", "send_emails", "smtp_port", "prime"] {
        assert_eq!(Config::parse(&without(key)).err(), Some(ConfigError::Invalid), "{}", key);
    }
    let text = without("admins") + "\nadmins = [1, 2]\n";
    assert_eq!(Config::parse(&text).err(), Some(ConfigError::Invalid));
    let text = without("prime") + "\nprime = \"yes\"\n";
    assert_eq!(Config::parse(&text).err(), Some(ConfigError::Invalid));
    assert_eq!(Config::parse(&with("email_domain = 3")).err(), Some(ConfigError::Invalid));
}

#[test]
fn the_email_domain_suffix_is_trimmed_and_lowercased() {
    let mut c = Config::parse(SAMPLE).unwrap();
    assert_eq!(c.email_domain_suffix(), None);
    c.email_domain = Some("  @BU.edu ".to_string());
    assert_eq!(c.email_domain_suffix(), Some("@bu.edu".to_string()));
    c.email_domain = Some("   ".to_string());
    assert_eq!(c.email_domain_suffix(), None);
    c.email_domain = Some(String::new());
    assert_eq!(c.email_domain_suffix(), None);
}

#[test]
fn the_config_path_defaults_to_the_sample() {
    assert_eq!(config_path(None), DEFAULT_CONFIG_PATH);
    assert_eq!(config_path(Some("csci2390-f19.toml".to_string())), "csci2390-f19.toml");
}
