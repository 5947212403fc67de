use comit_env::daemon::daemon_container_name;
use comit_env::daemon::daemon_settings;

#[test]
fn daemon_settings_point_at_both_nodes_on_the_test_networks() {
    let settings = daemon_settings("http://localhost:18443", "http://localhost:8545");
    assert_eq!(
        settings,
        "[bitcoin]\nnetwork = \"regtest\"\nnode_url = \"http://localhost:18443\"\n\n[ethereum]\nnetwork = \"regtest\"\nnode_url = \"http://localhost:8545\"\n"
    );
}

#[test]
fn daemon_container_names_are_distinct_per_instance() {
    assert_eq!(daemon_container_name(0), "cnd_0");
    assert_eq!(daemon_container_name(1), "cnd_1");
    assert_ne!(daemon_container_name(0), daemon_container_name(1));
}
