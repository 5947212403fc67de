use crate::hexfmt::push_char;
use vstd::prelude::*;

verus! {

/// The per-instance daemon settings: network identifiers fixed to the test
/// networks, node URLs pointed at the already-started nodes. The text is
/// written to an isolated directory and mounted into the daemon's
/// container.
pub fn daemon_settings(bitcoin_url: &str, ethereum_url: &str) -> (r: String)
    ensures
        r@ == "[bitcoin]\nnetwork = \"regtest\"\nnode_url = \""@ + bitcoin_url@
            + "\"\n\n[ethereum]\nnetwork = \"regtest\"\nnode_url = \""@ + ethereum_url@ + "\"\n"@,
{
    let mut r = String::from_str("[bitcoin]\nnetwork = \"regtest\"\nnode_url = \"");
    r.append(bitcoin_url);
    r.append("\"\n\n[ethereum]\nnetwork = \"regtest\"\nnode_url = \"");
    r.append(ethereum_url);
    r.append("\"\n");
    r
}

/// The unique container name for a daemon instance: the instance index
/// keeps the two daemons from colliding.
pub fn daemon_container_name(index: u8) -> (r: String)
    requires
        index < 10,
    ensures
        r@ == "cnd_"@ + seq![((0x30 + index) as u8) as char],
{
    let mut r = String::from_str("cnd_");
    push_char(&mut r, ((0x30 + index) as u8) as char);
    r
}

} // verus!
