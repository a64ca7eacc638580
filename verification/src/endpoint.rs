//! The identity of this node and where it is kept.
use iroh_base::{NodeAddr, SecretKey};
use rand_core::OsRng;
use std::path::{Path, PathBuf};
use vstd::prelude::*;
use vstd::string::*;

use crate::error::{ErrorView, VoiceError};
use crate::text::{hex, hex_text};
use crate::ticket::{made_for, reachability, relay_reads_back, ticket_outcome};

verus! {

/// A borrowed file system path.
#[verifier::external_type_specification]
#[verifier::external_body]
pub struct ExPath(std::path::Path);

/// An owned file system path.
#[verifier::external_type_specification]
#[verifier::external_body]
pub struct ExPathBuf(std::path::PathBuf);

/// The secret key that a node proves its identity with.
#[verifier::external_type_specification]
#[verifier::external_body]
pub struct ExSecretKey(iroh_base::SecretKey);

/// The components of a borrowed path: the pieces between its separators, a drive split off.
pub uninterp spec fn path_components(path: &Path) -> Seq<Seq<u8>>;

/// The components of an owned path, likewise.
pub uninterp spec fn path_buf_components(path: PathBuf) -> Seq<Seq<u8>>;

/// The bytes of a secret key.
pub uninterp spec fn secret_key_bytes(key: SecretKey) -> Seq<u8>;

/// A name that is one component of a path on every platform: it is not empty, it is neither `.`
/// nor `..`, and it holds no character that separates components or marks a drive.
pub open spec fn is_file_name(name: Seq<char>) -> bool {
    &&& name.len() > 0
    &&& name != seq!['.']
    &&& name != seq!['.', '.']
    &&& !name.contains('/')
    &&& !name.contains('\\')
    &&& !name.contains(':')
}

/// `Path::join` with the name of a file: the path with that name as one more component.
#[verifier::external_body]
fn join(dir: &Path, name: &str) -> (r: PathBuf)
    requires
        is_file_name(name@),
    ensures
        path_buf_components(r) == path_components(dir).push(name.spec_bytes()),
{
    dir.join(name)
}

/// `PathBuf::as_path`: the same path, borrowed.
#[verifier::external_body]
fn as_path(path: &PathBuf) -> (r: &Path)
    ensures
        path_components(r) == path_buf_components(*path),
{
    path.as_path()
}

/// `SecretKey::from_bytes`: the key with the given bytes.
pub assume_specification[ iroh_base::SecretKey::from_bytes ](bytes: &[u8; 32]) -> (r:
    iroh_base::SecretKey)
    ensures
        secret_key_bytes(r) == bytes@,
;

/// `SecretKey::to_bytes`: the bytes of the key.
pub assume_specification[ iroh_base::SecretKey::to_bytes ](key: &iroh_base::SecretKey) -> (r:
    [u8; 32])
    ensures
        r@ == secret_key_bytes(*key),
;

/// The bytes of the public key that belongs to the secret key with the given bytes.
pub uninterp spec fn public_key_bytes(secret: Seq<u8>) -> Seq<u8>;

/// `SecretKey::public`, with `PublicKey::as_bytes`: the bytes of the public key, which depends on
/// the bytes of the secret key alone.
#[verifier::external_body]
fn public_key(key: &SecretKey) -> (r: Vec<u8>)
    ensures
        r@ == public_key_bytes(secret_key_bytes(*key)),
{
    key.public().as_bytes().to_vec()
}

/// `SecretKey::generate` with the random numbers of the operating system: some new key.
#[verifier::external_body]
fn generate_secret_key() -> SecretKey {
    SecretKey::generate(OsRng)
}

/// The file that the identity is kept in.
pub fn identity_path(config_dir: &Path) -> (r: PathBuf)
    ensures
        path_buf_components(r) == path_components(config_dir).push("identity.key".spec_bytes()),
{
    assert(is_file_name("identity.key"@)) by {
        reveal_strlit("identity.key");
        let name = "identity.key"@;
        assert(name.len() == 12);
        assert(forall|i: int| 0 <= i < 12 ==> name[i] != '/' && name[i] != '\\' && name[i] != ':');
        assert(seq!['.'].len() == 1 && seq!['.', '.'].len() == 2);
    }
    join(config_dir, "identity.key")
}

/// The platforms that differ in how the directory of an application is named.
#[derive(Debug, Clone, Copy, PartialEq, Eq, Structural)]
pub enum Platform {
    MacOs,
    Other,
}

/// The name of the directory of the application.
pub open spec fn application_name(platform: Platform) -> Seq<u8> {
    match platform {
        Platform::MacOs => "com.Accord.Accord".spec_bytes(),
        Platform::Other => "Accord".spec_bytes(),
    }
}

/// What the directory of the application comes to: one of its own within the directory where the
/// platform keeps configurations, which may be unknown.
pub open spec fn application_dir(
    platform: Platform,
    base: Option<PathBuf>,
    r: Result<PathBuf, VoiceError>,
) -> bool {
    match base {
        Some(dir) => r is Ok && path_buf_components(r->Ok_0) == path_buf_components(dir).push(
            application_name(platform),
        ),
        None => r is Err && r->Err_0@ == ErrorView::Other("Could not determine config directory"@),
    }
}

/// The directory of the application, given where the platform keeps configurations.
pub fn default_config_dir(platform: Platform, base: Option<PathBuf>) -> (r: Result<
    PathBuf,
    VoiceError,
>)
    ensures
        application_dir(platform, base, r),
{
    let dir: PathBuf = match base {
        Some(dir) => dir,
        None => {
            return Err(VoiceError::Other("Could not determine config directory".to_owned()));
        },
    };
    let name: &str = match platform {
        Platform::MacOs => "com.Accord.Accord",
        Platform::Other => "Accord",
    };
    assert(is_file_name(name@)) by {
        reveal_strlit("com.Accord.Accord");
        reveal_strlit("Accord");
        assert(name@.len() == 6 || name@.len() == 17);
        assert(forall|i: int|
            0 <= i < name@.len() ==> name@[i] != '/' && name@[i] != '\\' && name@[i] != ':');
        assert(seq!['.'].len() == 1 && seq!['.', '.'].len() == 2);
    }
    Ok(join(as_path(&dir), name))
}

/// The directory the identity is kept in: the configured one, or else that of the application.
pub fn config_dir_or_default(
    configured: Option<PathBuf>,
    platform: Platform,
    base: Option<PathBuf>,
) -> (r: Result<PathBuf, VoiceError>)
    ensures
        match configured {
            Some(dir) => r == Ok::<PathBuf, VoiceError>(dir),
            None => application_dir(platform, base, r),
        },
{
    match configured {
        Some(dir) => Ok(dir),
        None => default_config_dir(platform, base),
    }
}

/// The identity of this node: one that was kept, or a new one and what is to be kept of it.
pub enum Identity {
    Kept(SecretKey),
    New { key: SecretKey, contents: Vec<u8> },
}

/// What reading an identity file comes to.
pub open spec fn identity_read(contents: Seq<u8>, r: Result<SecretKey, VoiceError>) -> bool {
    match r {
        Ok(key) => contents.len() == 32 && secret_key_bytes(key) == contents,
        Err(error) => contents.len() != 32 && error@ == ErrorView::Other(
            "Invalid secret key length"@,
        ),
    }
}

/// What is kept of an identity.
pub open spec fn identity_kept(key: SecretKey, contents: Seq<u8>) -> bool {
    contents.len() == 32 && contents == secret_key_bytes(key)
}

/// Reads an identity file.
pub fn load_secret_key(contents: &Vec<u8>) -> (r: Result<SecretKey, VoiceError>)
    ensures
        identity_read(contents@, r),
{
    if contents.len() != 32 {
        return Err(VoiceError::Other("Invalid secret key length".to_owned()));
    }
    let mut key_bytes: [u8; 32] = [0u8;32];
    let mut i: usize = 0;
    while i < 32
        invariant
            i <= 32,
            contents@.len() == 32,
            forall|k: int| 0 <= k < i ==> key_bytes@[k] == contents@[k],
        decreases 32 - i,
    {
        key_bytes[i] = contents[i];
        i = i + 1;
    }
    assert(key_bytes@ =~= contents@);
    Ok(SecretKey::from_bytes(&key_bytes))
}

/// What an identity file holds for a key.
pub fn identity_contents(key: &SecretKey) -> (r: Vec<u8>)
    ensures
        identity_kept(*key, r@),
{
    let bytes: [u8; 32] = key.to_bytes();
    let mut out: Vec<u8> = Vec::new();
    let mut i: usize = 0;
    while i < 32
        invariant
            i <= 32,
            out@ == bytes@.take(i as int),
        decreases 32 - i,
    {
        out.push(bytes[i]);
        i = i + 1;
        assert(out@ =~= bytes@.take(i as int));
    }
    assert(bytes@.take(32) =~= bytes@);
    out
}

/// Takes the identity from the contents of its file, or makes a new one where there is no file.
pub fn load_or_create_secret_key(stored: Option<Vec<u8>>) -> (r: Result<Identity, VoiceError>)
    ensures
        match stored {
            Some(contents) => match r {
                Ok(Identity::Kept(key)) => identity_read(contents@, Ok(key)),
                Ok(Identity::New { .. }) => false,
                Err(error) => identity_read(contents@, Err(error)),
            },
            None => r matches Ok(Identity::New { key, contents }) && identity_kept(key, contents@),
        },
{
    match stored {
        Some(contents) => match load_secret_key(&contents) {
            Ok(key) => Ok(Identity::Kept(key)),
            Err(error) => Err(error),
        },
        None => {
            let key: SecretKey = generate_secret_key();
            let contents: Vec<u8> = identity_contents(&key);
            Ok(Identity::New { key, contents })
        },
    }
}

/// How the identity of the node with the given secret key is shown: its public key in hexadecimal
/// digits.
pub open spec fn shown_node_id(key: SecretKey) -> Seq<char> {
    hex(public_key_bytes(secret_key_bytes(key)))
}

/// The identity of the node with the given secret key, as it is shown.
pub fn node_id(key: &SecretKey) -> (r: String)
    ensures
        r@ == shown_node_id(*key),
{
    let bytes: Vec<u8> = public_key(key);
    hex_text(&bytes)
}

/// An identity survives being kept: reading what was kept of a key succeeds and gives a key with
/// the same bytes, and so a node with the same identity.
pub proof fn identity_survives(
    key: SecretKey,
    contents: Seq<u8>,
    r: Result<SecretKey, VoiceError>,
)
    requires
        identity_kept(key, contents),
        identity_read(contents, r),
    ensures
        r is Ok,
        secret_key_bytes(r->Ok_0) == secret_key_bytes(key),
        shown_node_id(r->Ok_0) == shown_node_id(key),
{
}

/// Reading one identity file at any two times gives one identity.
pub proof fn node_id_stays(
    contents: Seq<u8>,
    first: Result<SecretKey, VoiceError>,
    second: Result<SecretKey, VoiceError>,
)
    requires
        identity_read(contents, first),
        identity_read(contents, second),
    ensures
        first is Ok <==> second is Ok,
        first is Ok ==> shown_node_id(first->Ok_0) == shown_node_id(second->Ok_0),
{
}

/// A ticket names the node that made it: whatever is read from the ticket for an address of the
/// node, the identity is the one that the node shows.
pub proof fn ticket_names_the_node(key: SecretKey, addr: NodeAddr, ticket: Seq<char>)
    requires
        reachability(addr).node_id == public_key_bytes(secret_key_bytes(key)),
        made_for(ticket, addr),
    ensures
        relay_reads_back(reachability(addr)) ==> ticket_outcome(ticket) is Ok,
        ticket_outcome(ticket) is Ok ==> hex(
            reachability(ticket_outcome(ticket)->Ok_0).node_id,
        ) == shown_node_id(key),
{
}

/// Every start on one identity file is one node: the identity that is shown is the same each time,
/// and it is the one that is read from the ticket of any start.
pub proof fn every_start_is_one_node(
    contents: Seq<u8>,
    first: Result<SecretKey, VoiceError>,
    second: Result<SecretKey, VoiceError>,
    addr: NodeAddr,
    ticket: Seq<char>,
)
    requires
        identity_read(contents, first),
        identity_read(contents, second),
        second is Ok,
        reachability(addr).node_id == public_key_bytes(secret_key_bytes(second->Ok_0)),
        made_for(ticket, addr),
    ensures
        first is Ok,
        shown_node_id(first->Ok_0) == shown_node_id(second->Ok_0),
        relay_reads_back(reachability(addr)) ==> ticket_outcome(ticket) is Ok,
        ticket_outcome(ticket) is Ok ==> hex(
            reachability(ticket_outcome(ticket)->Ok_0).node_id,
        ) == shown_node_id(first->Ok_0),
{
    node_id_stays(contents, first, second);
    ticket_names_the_node(second->Ok_0, addr, ticket);
}

/// An identity file is read exactly where it has the length of a key, and then byte for byte; else
/// the error says what is wrong.
pub proof fn identity_file_is_a_key(contents: Seq<u8>, r: Result<SecretKey, VoiceError>)
    requires
        identity_read(contents, r),
    ensures
        r is Ok <==> contents.len() == 32,
        r matches Ok(key) ==> secret_key_bytes(key) == contents,
        r matches Err(error) ==> error@ == ErrorView::Other("Invalid secret key length"@),
{
}

/// What is kept of a key is all of its bytes and nothing else.
pub proof fn key_is_kept_whole(key: SecretKey, contents: Seq<u8>)
    requires
        identity_kept(key, contents),
    ensures
        contents == secret_key_bytes(key),
        contents.len() == 32,
{
}

/// The directory of the application lies in that of the platform, under the name that it has there.
pub proof fn application_has_its_directory(
    platform: Platform,
    base: Option<PathBuf>,
    r: Result<PathBuf, VoiceError>,
)
    requires
        application_dir(platform, base, r),
    ensures
        r is Ok <==> base is Some,
        base matches Some(dir) ==> {
            let path = path_buf_components(r->Ok_0);
            &&& path.len() == path_buf_components(dir).len() + 1
            &&& path.drop_last() == path_buf_components(dir)
            &&& platform is MacOs ==> path.last() == "com.Accord.Accord".spec_bytes()
            &&& platform is Other ==> path.last() == "Accord".spec_bytes()
        },
        r matches Err(error) ==> error@ == ErrorView::Other(
            "Could not determine config directory"@,
        ),
{
    if base is Some {
        assert(path_buf_components(r->Ok_0).drop_last() =~= path_buf_components(base->0));
    }
}

/// A node is shown by the digits of its public key, two to a byte.
pub proof fn node_is_shown_by_its_key(key: SecretKey)
    ensures
        shown_node_id(key) == hex(public_key_bytes(secret_key_bytes(key))),
{
}

}
