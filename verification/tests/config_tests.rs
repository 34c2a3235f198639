use arcade::config::ConsoleConfig;

#[test]
fn default_config_text() {
    let c = ConsoleConfig::default();
    assert_eq!(c.title, "SHAREWARE");
    assert_eq!(c.subtitle, "A  R  C  A  D  E");
    assert_eq!(c.prompt, ">>> PRESS TO PLAY <<<");
    assert_eq!(c.controls_select, "ROTATE = SELECT");
    assert_eq!(c.controls_start, "PRESS = START");
    assert_eq!(c.exit_hint, "ESC TO EXIT");
}

#[test]
fn config_fields_can_be_overridden() {
    let c = ConsoleConfig { title: "MY ARCADE".to_string(), ..Default::default() };
    assert_eq!(c.title, "MY ARCADE");
    assert_eq!(c.exit_hint, "ESC TO EXIT");
}
