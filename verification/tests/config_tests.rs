use rfserve::config::{Envs, EnvsError};

#[test]
fn envs_keep_their_values() {
    let days = Envs::parse_store_days("7").unwrap();
    let envs = Envs::new(8080, "postgres://db".to_string(), "/videos".to_string(), days, "example.com".to_string());
    assert_eq!(envs.get_port(), 8080);
    assert_eq!(envs.get_db_url(), "postgres://db");
    assert_eq!(envs.get_video_root(), "/videos");
    assert_eq!(envs.get_expred_store_days(), 7);
    assert_eq!(envs.get_hostname(), "example.com");
}

#[test]
fn store_days_must_be_a_number() {
    assert_eq!(Envs::parse_store_days("seven"), Err(EnvsError::InvalidStoreDays));
    assert_eq!(Envs::parse_store_days(""), Err(EnvsError::InvalidStoreDays));
    assert_eq!(Envs::parse_store_days("-3"), Err(EnvsError::InvalidStoreDays));
    assert_eq!(Envs::parse_store_days("+30"), Ok(30));
}
