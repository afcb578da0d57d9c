//! Where key identities live: path strings below the user's home directory.

use vstd::prelude::*;
use vstd::string::*;

verus! {

/// The name of the key-storage directory inside the home directory.
pub open spec fn storage_leaf() -> Seq<char> {
    seq!['.', 's', 's', 'h']
}

/// The suffix that tells a public key file from its private sibling.
pub open spec fn public_suffix() -> Seq<char> {
    seq!['.', 'p', 'u', 'b']
}

/// The key-storage directory of the user whose home directory is `home`:
/// `.ssh` directly below it, with one separator between the two unless `home`
/// is empty or already ends in one.
pub open spec fn storage_dir_spec(home: Seq<char>) -> Seq<char> {
    if home.len() == 0 || home.last() == '/' {
        home + storage_leaf()
    } else {
        home + seq!['/'] + storage_leaf()
    }
}

/// The private key file of the identity `name`: `{storage_dir}/{name}`.
pub open spec fn key_path_spec(home: Seq<char>, name: Seq<char>) -> Seq<char> {
    storage_dir_spec(home) + seq!['/'] + name
}

/// The public key file that belongs to the private key file `key_path`.
pub open spec fn public_key_path_spec(key_path: Seq<char>) -> Seq<char> {
    key_path + public_suffix()
}

/// The key-storage directory below `home`.
pub fn storage_dir(home: &str) -> (dir: String)
    ensures
        dir@ == storage_dir_spec(home@),
{
    let n: usize = home.unicode_len();
    let base = String::from_str(home);
    if n == 0 || home.get_char(n - 1) == '/' {
        proof {
            reveal_strlit(".ssh");
            assert(".ssh"@ =~= storage_leaf());
        }
        base.concat(".ssh")
    } else {
        proof {
            reveal_strlit("/.ssh");
            assert(home@ + "/.ssh"@ =~= home@ + seq!['/'] + storage_leaf());
        }
        base.concat("/.ssh")
    }
}

/// The private key file of the identity `name` in the storage directory below
/// `home`.
pub fn key_path(home: &str, name: &str) -> (path: String)
    ensures
        path@ == key_path_spec(home@, name@),
{
    proof {
        reveal_strlit("/");
        assert("/"@ =~= seq!['/']);
    }
    storage_dir(home).concat("/").concat(name)
}

/// The public key file beside the private key file `key_path`.
pub fn public_key_path(key_path: &str) -> (path: String)
    ensures
        path@ == public_key_path_spec(key_path@),
{
    proof {
        reveal_strlit(".pub");
        assert(".pub"@ =~= public_suffix());
    }
    String::from_str(key_path).concat(".pub")
}

/// A storage directory never ends in a separator, so a key path is the
/// directory, one separator and the name, and the name can be read back from
/// it.
pub proof fn lemma_key_path_names(home: Seq<char>, name: Seq<char>)
    ensures
        key_path_spec(home, name).len() == storage_dir_spec(home).len() + 1 + name.len(),
        key_path_spec(home, name).skip(storage_dir_spec(home).len() as int + 1) == name,
        storage_dir_spec(home).len() > 0,
        storage_dir_spec(home).last() == 'h',
{
    let dir = storage_dir_spec(home);
    assert(key_path_spec(home, name).skip(dir.len() as int + 1) =~= name);
}

/// Two identities share a key path only if they share a name.
pub proof fn lemma_key_path_injective(home: Seq<char>, a: Seq<char>, b: Seq<char>)
    requires
        key_path_spec(home, a) == key_path_spec(home, b),
    ensures
        a == b,
{
    lemma_key_path_names(home, a);
    lemma_key_path_names(home, b);
}

} // verus!
