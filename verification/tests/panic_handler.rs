use desktop_node::bootstrap::{install_panic_handler, SUPPORT_CONTACT};

// The handler is installed for the whole process, so this test has the
// process to itself.
#[test]
fn panic_handler_carries_the_support_contact_and_the_version() {
    let installed = install_panic_handler("1.2.3");
    assert_eq!(installed.bug_url, "https://discord.gg/vhKF9w3x");
    assert_eq!(installed.version, "1.2.3");
    let installed = install_panic_handler("");
    assert_eq!(installed.bug_url, SUPPORT_CONTACT);
    assert_eq!(installed.version, "");
}
