use zvuk_dl::config::resize_command_validator;
use zvuk_dl::config::ConfigError;

#[test]
fn validate_resize_command() {
    let successes = &["cmd {source} {target}"];
    let fails = &["cmd {target}", "cmd {source}", "cmd", ""];

    for case in successes {
        assert!(resize_command_validator(case).is_ok());
    }

    for case in fails {
        assert!(resize_command_validator(case).is_err());
    }
}

#[test]
fn resize_command_is_handed_back_unchanged() {
    assert_eq!(
        resize_command_validator("magick {source} -resize 50% {target}"),
        Ok(String::from("magick {source} -resize 50% {target}"))
    );
    assert_eq!(
        resize_command_validator("{target}{source}"),
        Ok(String::from("{target}{source}"))
    );
    assert_eq!(
        resize_command_validator("{source} {targe}"),
        Err(ConfigError::MissingPlaceholder)
    );
}
