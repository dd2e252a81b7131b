//! Addresses of the calls the orchestrator makes: the content store's and the name
//! service's HTTP API, and a node's deploy endpoint.

use vstd::prelude::*;
use vstd::string::*;
use crate::text::{decimal, decimal_text};

verus! {

/// Where the content store accepts new content.
pub fn add_url(host: &String) -> (r: String)
    ensures
        r@ == host@ + "/api/v0/add"@,
{
    host.clone().concat("/api/v0/add")
}

/// Where the name service lists its naming keys.
pub fn key_list_url(host: &String) -> (r: String)
    ensures
        r@ == host@ + "/api/v0/key/list"@,
{
    host.clone().concat("/api/v0/key/list")
}

/// Where the name service creates an ed25519 naming key called `name`.
pub fn key_gen_url(host: &String, name: &String) -> (r: String)
    ensures
        r@ == host@ + "/api/v0/key/gen?arg="@ + name@ + "&type=ed25519"@,
{
    let mut s = host.clone().concat("/api/v0/key/gen?arg=");
    s.append(name.as_str());
    s.append("&type=ed25519");
    s
}

/// Where the name service publishes `/ipfs/<cid>` under the key called `key_name`.
pub fn publish_url(host: &String, key_name: &String, cid: &String) -> (r: String)
    ensures
        r@ == host@ + "/api/v0/name/publish?key="@ + key_name@ + "&arg=/ipfs/"@ + cid@,
{
    let mut s = host.clone().concat("/api/v0/name/publish?key=");
    s.append(key_name.as_str());
    s.append("&arg=/ipfs/");
    s.append(cid.as_str());
    s
}

/// A node's deploy endpoint.
pub fn node_deploy_url(ip: &String, port: u16) -> (r: String)
    ensures
        r@ == "http://"@ + ip@ + ":"@ + decimal(port as nat) + "/api/deploy"@,
{
    let mut s = String::from_str("http://");
    s.append(ip.as_str());
    s.append(":");
    let p = decimal_text(port as u64);
    s.append(p.as_str());
    s.append("/api/deploy");
    s
}

/// Where the name service resolves a published name.
pub fn resolve_url(host: &String, name: &String) -> (r: String)
    ensures
        r@ == host@ + "/api/v0/name/resolve?arg="@ + name@,
{
    let mut s = host.clone().concat("/api/v0/name/resolve?arg=");
    s.append(name.as_str());
    s
}

/// Where the content store serves the content of `cid`.
pub fn cat_url(host: &String, cid: &String) -> (r: String)
    ensures
        r@ == host@ + "/api/v0/cat?arg="@ + cid@,
{
    let mut s = host.clone().concat("/api/v0/cat?arg=");
    s.append(cid.as_str());
    s
}

/// The prefix of a content path.
pub open spec fn ipfs_prefix() -> Seq<char> {
    seq!['/', 'i', 'p', 'f', 's', '/']
}

/// The content identifier of a resolved path `/ipfs/<cid>`; `None` for a path of
/// another form.
pub fn cid_from_path(path: &String) -> (r: Option<String>)
    ensures
        path@.len() >= 6 && path@.subrange(0, 6) == ipfs_prefix() ==> r is Some
            && r->Some_0@ == path@.subrange(6, path@.len() as int),
        !(path@.len() >= 6 && path@.subrange(0, 6) == ipfs_prefix()) ==> r is None,
{
    let s = path.as_str();
    let n = s.unicode_len();
    if n < 6 {
        return None;
    }
    let prefixed = s.get_char(0) == '/' && s.get_char(1) == 'i' && s.get_char(2) == 'p'
        && s.get_char(3) == 'f' && s.get_char(4) == 's' && s.get_char(5) == '/';
    if !prefixed {
        assert(path@.subrange(0, 6) != ipfs_prefix()) by {
            if path@.subrange(0, 6) == ipfs_prefix() {
                assert(path@.subrange(0, 6)[0] == path@[0]);
                assert(path@.subrange(0, 6)[1] == path@[1]);
                assert(path@.subrange(0, 6)[2] == path@[2]);
                assert(path@.subrange(0, 6)[3] == path@[3]);
                assert(path@.subrange(0, 6)[4] == path@[4]);
                assert(path@.subrange(0, 6)[5] == path@[5]);
            }
        }
        return None;
    }
    assert(path@.subrange(0, 6) =~= ipfs_prefix());
    Some(String::from_str(s.substring_char(6, n)))
}

} // verus!
