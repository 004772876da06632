use skills_hub::commands::update::install_mode;

#[test]
fn install_mode_follows_the_executable_location() {
    assert_eq!(install_mode(None, false), "dev");
    assert_eq!(install_mode(None, true), "dev");
    assert_eq!(install_mode(Some("/opt/skills-hub/skills-hub"), true), "portable");
    assert_eq!(install_mode(Some("C:\\Program Files\\Skills Hub\\skills-hub.exe"), false), "setup");
    assert_eq!(install_mode(Some("C:\\PROGRAM FILES\\Skills Hub\\skills-hub.exe"), false), "setup");
    assert_eq!(install_mode(Some("C:\\Program Files\\Skills Hub\\skills-hub.exe"), true), "portable");
    assert_eq!(install_mode(Some("/home/ada/dev/skills-hub/target/debug/skills-hub"), false), "dev");
}
