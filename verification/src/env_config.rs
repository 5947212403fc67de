use crate::handles::Environment;
use crate::hexfmt::{hex_chars_0x, push_char, to_hex_0x};
use vstd::prelude::*;

verus! {

/// One line of the flat key-value configuration file.
pub struct EnvEntry {
    pub key: String,
    pub value: String,
}

/// The index of the first entry carrying the key, `-1` if none does.
pub open spec fn find_key(s: Seq<EnvEntry>, key: Seq<char>) -> int
    decreases s.len(),
{
    if s.len() == 0 {
        -1
    } else if s[0].key@ == key {
        0
    } else {
        let r = find_key(s.drop_first(), key);
        if r == -1 {
            -1
        } else {
            r + 1
        }
    }
}

/// `find_key` names the first entry with the key, and `-1` means that no
/// entry carries it.
pub proof fn lemma_find_key(s: Seq<EnvEntry>, key: Seq<char>)
    ensures
        find_key(s, key) == -1 ==> forall|i: int| 0 <= i < s.len() ==> s[i].key@ != key,
        find_key(s, key) != -1 ==> 0 <= find_key(s, key) < s.len() && s[find_key(s, key)].key@
            == key && forall|i: int| 0 <= i < find_key(s, key) ==> s[i].key@ != key,
    decreases s.len(),
{
    if s.len() > 0 && s[0].key@ != key {
        lemma_find_key(s.drop_first(), key);
        let r = find_key(s.drop_first(), key);
        if r != -1 {
            assert(forall|i: int|
                1 <= i < r + 1 ==> s[i] == s.drop_first()[i - 1] && s.drop_first()[i - 1].key@
                    != key);
        } else {
            assert(forall|i: int| 1 <= i < s.len() ==> s[i] == s.drop_first()[i - 1]);
        }
    }
}

/// What updating a key in place means: the first entry carrying the key
/// gets the new value and keeps its place; a missing key is appended.
pub open spec fn upsert_spec(s: Seq<EnvEntry>, key: String, value: String) -> Seq<EnvEntry> {
    let j = find_key(s, key@);
    if j == -1 {
        s.push(EnvEntry { key, value })
    } else {
        s.update(j, EnvEntry { key: s[j].key, value })
    }
}

/// Update a key in place, or append it if it is not present yet, so that a
/// run against an existing configuration file keeps every other line.
pub fn upsert(entries: &mut Vec<EnvEntry>, key: String, value: String)
    ensures
        final(entries)@ == upsert_spec(old(entries)@, key, value),
        final(entries)@.len() <= old(entries)@.len() + 1,
{
    let n = entries.len();
    let mut i: usize = 0;
    while i < n
        invariant
            n == entries@.len(),
            i <= n,
            entries@ == old(entries)@,
            forall|k: int| 0 <= k < i ==> entries@[k].key@ != key@,
        decreases n - i,
    {
        if entries[i].key.eq(&key) {
            proof {
                lemma_find_key_first(entries@, key@, i as int);
            }
            entries[i].value = value;
            return ;
        }
        i = i + 1;
    }
    proof {
        lemma_find_key(entries@, key@);
        if find_key(entries@, key@) != -1 {
            assert(entries@[find_key(entries@, key@)].key@ == key@);
        }
    }
    entries.push(EnvEntry { key, value });
}

/// When an entry carries the key and no earlier one does, `find_key` names
/// exactly that entry.
pub proof fn lemma_find_key_first(s: Seq<EnvEntry>, key: Seq<char>, i: int)
    requires
        0 <= i < s.len(),
        s[i].key@ == key,
        forall|k: int| 0 <= k < i ==> s[k].key@ != key,
    ensures
        find_key(s, key) == i,
    decreases i,
{
    if i > 0 {
        assert(s.drop_first()[i - 1] == s[i]);
        assert(forall|k: int| 0 <= k < i - 1 ==> s.drop_first()[k] == s[k + 1]);
        lemma_find_key_first(s.drop_first(), key, i - 1);
    }
}

/// Law: after an update the file holds the key, and the first entry
/// carrying it holds exactly the written value — whether the key was
/// already present (updated in place) or not (appended).
pub proof fn lemma_upsert_establishes_key(s: Seq<EnvEntry>, key: String, value: String)
    ensures
        ({
            let t = upsert_spec(s, key, value);
            let j = find_key(t, key@);
            0 <= j < t.len() && t[j].key@ == key@ && t[j].value@ == value@
        }),
{
    let t = upsert_spec(s, key, value);
    let j0 = find_key(s, key@);
    lemma_find_key(s, key@);
    if j0 == -1 {
        assert(t[s.len() as int].key@ == key@);
        assert(forall|k: int| 0 <= k < s.len() ==> t[k] == s[k]);
        lemma_find_key_first(t, key@, s.len() as int);
    } else {
        assert(t[j0].key@ == key@);
        assert(forall|k: int| 0 <= k < j0 ==> t[k] == s[k]);
        lemma_find_key_first(t, key@, j0);
    }
}

/// Law: an update touches nothing but its own key. Every entry carrying
/// another key keeps its place and its value.
pub proof fn lemma_upsert_preserves_others(s: Seq<EnvEntry>, key: String, value: String, i: int)
    requires
        0 <= i < s.len(),
        s[i].key@ != key@,
    ensures
        upsert_spec(s, key, value)[i] == s[i],
{
    lemma_find_key(s, key@);
}

/// The text of one entry: `KEY=VALUE` and a line break.
pub open spec fn entry_chars(e: EnvEntry) -> Seq<char> {
    e.key@ + seq!['='] + e.value@ + seq!['\n']
}

/// The text of the whole configuration file, one entry per line.
pub open spec fn render_chars(s: Seq<EnvEntry>) -> Seq<char>
    decreases s.len(),
{
    if s.len() == 0 {
        Seq::<char>::empty()
    } else {
        entry_chars(s[0]) + render_chars(s.drop_first())
    }
}

proof fn lemma_render_snoc(s: Seq<EnvEntry>, i: int)
    requires
        0 <= i < s.len(),
    ensures
        render_chars(s.take(i + 1)) == render_chars(s.take(i)) + entry_chars(s[i]),
    decreases i,
{
    let a = s.take(i + 1);
    let b = s.take(i);
    if i == 0 {
        assert(a.drop_first().len() == 0);
        assert(render_chars(a.drop_first()) =~= Seq::<char>::empty());
        assert(render_chars(b) =~= Seq::<char>::empty());
        assert(render_chars(a) =~= entry_chars(s[0]));
    } else {
        lemma_render_snoc(s.drop_first(), i - 1);
        assert(a.drop_first() =~= s.drop_first().take(i));
        assert(b.drop_first() =~= s.drop_first().take(i - 1));
        assert(a[0] == s[0] && b[0] == s[0]);
        assert(render_chars(a) =~= render_chars(b) + entry_chars(s[i]));
    }
}

/// Serialize the entries to the flat key-value text that downstream
/// applications consume.
pub fn render(entries: &Vec<EnvEntry>) -> (r: String)
    ensures
        r@ == render_chars(entries@),
{
    let mut r = String::new();
    let n = entries.len();
    let mut i: usize = 0;
    while i < n
        invariant
            n == entries@.len(),
            i <= n,
            r@ == render_chars(entries@.take(i as int)),
        decreases n - i,
    {
        r.append(entries[i].key.as_str());
        push_char(&mut r, '=');
        r.append(entries[i].value.as_str());
        push_char(&mut r, '\n');
        proof {
            lemma_render_snoc(entries@, i as int);
            assert(r@ =~= render_chars(entries@.take(i + 1)));
        }
        i = i + 1;
    }
    proof {
        assert(entries@.take(n as int) =~= entries@);
    }
    r
}

/// The index of the first occurrence of a character, `-1` if it does not
/// occur.
pub open spec fn find_char(s: Seq<char>, c: char) -> int
    decreases s.len(),
{
    if s.len() == 0 {
        -1
    } else if s[0] == c {
        0
    } else {
        let r = find_char(s.drop_first(), c);
        if r == -1 {
            -1
        } else {
            r + 1
        }
    }
}

/// When a position holds the character and no earlier one does,
/// `find_char` names exactly that position.
pub proof fn lemma_find_char_first(s: Seq<char>, c: char, i: int)
    requires
        0 <= i < s.len(),
        s[i] == c,
        forall|k: int| 0 <= k < i ==> s[k] != c,
    ensures
        find_char(s, c) == i,
    decreases i,
{
    if i > 0 {
        assert(s.drop_first()[i - 1] == s[i]);
        assert(forall|k: int| 0 <= k < i - 1 ==> s.drop_first()[k] == s[k + 1]);
        lemma_find_char_first(s.drop_first(), c, i - 1);
    }
}

/// When no position holds the character, `find_char` reports its absence.
pub proof fn lemma_find_char_none(s: Seq<char>, c: char)
    requires
        forall|k: int| 0 <= k < s.len() ==> s[k] != c,
    ensures
        find_char(s, c) == -1,
    decreases s.len(),
{
    if s.len() > 0 {
        assert(forall|k: int| 0 <= k < s.drop_first().len() ==> s.drop_first()[k] == s[k + 1]);
        lemma_find_char_none(s.drop_first(), c);
    }
}

/// Read one line of the configuration file: the text before the first
/// separator is the key, everything after it the value. A line without a
/// separator carries no entry.
pub fn parse_env_line(line: &str) -> (r: Option<EnvEntry>)
    ensures
        r is Some <==> find_char(line@, '=') >= 0,
        r matches Some(e) ==> e.key@ == line@.take(find_char(line@, '=')) && e.value@ == line@.skip(
            find_char(line@, '=') + 1,
        ),
{
    let n = line.unicode_len();
    let mut i: usize = 0;
    while i < n
        invariant
            n == line@.len(),
            i <= n,
            forall|k: int| 0 <= k < i ==> line@[k] != '=',
        decreases n - i,
    {
        if line.get_char(i) == '=' {
            proof {
                lemma_find_char_first(line@, '=', i as int);
            }
            let key = line.substring_char(0, i).to_owned();
            let value = line.substring_char(i + 1, n).to_owned();
            proof {
                assert(key@ =~= line@.take(i as int));
                assert(value@ =~= line@.skip(i + 1));
            }
            return Some(EnvEntry { key, value });
        }
        i = i + 1;
    }
    proof {
        lemma_find_char_none(line@, '=');
    }
    None
}

/// The resolved endpoints and key material of a ready environment, as the
/// ten entries the configuration file must hold, in a fixed order.
pub fn environment_entries(env: &Environment) -> (v: Vec<EnvEntry>)
    ensures
        v@.len() == 10,
        v@[0].key@ == "ETHEREUM_KEY_0"@ && v@[0].value@ == hex_chars_0x(
            env.parity.account_0.private_key@,
        ),
        v@[1].key@ == "ETHEREUM_KEY_1"@ && v@[1].value@ == hex_chars_0x(
            env.parity.account_1.private_key@,
        ),
        v@[2].key@ == "ERC20_CONTRACT_ADDRESS"@ && v@[2].value@ == hex_chars_0x(
            env.parity.erc20_contract_address@,
        ),
        v@[3].key@ == "ETHEREUM_NODE_HTTP_URL"@ && v@[3].value@ == env.parity.http_endpoint@,
        v@[4].key@ == "BITCOIN_HD_KEY_0"@ && v@[4].value@ == env.bitcoind.account_0.master@,
        v@[5].key@ == "BITCOIN_HD_KEY_1"@ && v@[5].value@ == env.bitcoind.account_1.master@,
        v@[6].key@ == "BITCOIN_NODE_RPC_URL"@ && v@[6].value@ == env.bitcoind.http_endpoint@,
        v@[7].key@ == "BITCOIN_P2P_URI"@ && v@[7].value@ == env.bitcoind.p2p_uri@,
        v@[8].key@ == "HTTP_URL_CND_0"@ && v@[8].value@ == env.cnd_0.http_endpoint@,
        v@[9].key@ == "HTTP_URL_CND_1"@ && v@[9].value@ == env.cnd_1.http_endpoint@,
        env.wf() ==> forall|i: int| 0 <= i < 10 ==> #[trigger] v@[i].value@.len() > 0,
{
    let mut v: Vec<EnvEntry> = Vec::new();
    v.push(
        EnvEntry {
            key: String::from_str("ETHEREUM_KEY_0"),
            value: to_hex_0x(env.parity.account_0.private_key.as_slice()),
        },
    );
    v.push(
        EnvEntry {
            key: String::from_str("ETHEREUM_KEY_1"),
            value: to_hex_0x(env.parity.account_1.private_key.as_slice()),
        },
    );
    v.push(
        EnvEntry {
            key: String::from_str("ERC20_CONTRACT_ADDRESS"),
            value: to_hex_0x(env.parity.erc20_contract_address.as_slice()),
        },
    );
    v.push(
        EnvEntry {
            key: String::from_str("ETHEREUM_NODE_HTTP_URL"),
            value: env.parity.http_endpoint.clone(),
        },
    );
    v.push(
        EnvEntry {
            key: String::from_str("BITCOIN_HD_KEY_0"),
            value: env.bitcoind.account_0.master.clone(),
        },
    );
    v.push(
        EnvEntry {
            key: String::from_str("BITCOIN_HD_KEY_1"),
            value: env.bitcoind.account_1.master.clone(),
        },
    );
    v.push(
        EnvEntry {
            key: String::from_str("BITCOIN_NODE_RPC_URL"),
            value: env.bitcoind.http_endpoint.clone(),
        },
    );
    v.push(
        EnvEntry { key: String::from_str("BITCOIN_P2P_URI"), value: env.bitcoind.p2p_uri.clone() },
    );
    v.push(
        EnvEntry { key: String::from_str("HTTP_URL_CND_0"), value: env.cnd_0.http_endpoint.clone() },
    );
    v.push(
        EnvEntry { key: String::from_str("HTTP_URL_CND_1"), value: env.cnd_1.http_endpoint.clone() },
    );
    v
}

} // verus!
