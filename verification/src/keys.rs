//! Key pairs for deploying programs: how a new pair is written to its
//! file, and which key a deployment uses.

use vstd::prelude::*;
use vstd::string::*;
use crate::text::{decimal, decimal_of};

verus! {

/// The number of bytes of a key pair: the secret key and the public key.
pub const KEYPAIR_BYTES: usize = 64;

/// Calls `solana_keypair::Keypair::new` for a key pair made by chance,
/// and takes from it the public key as text (`Signer::pubkey`, written
/// with its `Display`) and the bytes of the pair (`Keypair::to_bytes`).
/// Which pair comes is not claimed, only the number of its bytes, which
/// is the length of the array that `to_bytes` returns. The crate draws
/// the pair from the random source of the operating system and panics
/// where that source fails.
#[verifier::external_body]
pub(crate) fn new_keypair() -> (pair: (String, Vec<u8>))
    ensures
        pair.1@.len() == KEYPAIR_BYTES,
{
    let keypair = solana_keypair::Keypair::new();
    (solana_signer::Signer::pubkey(&keypair).to_string(), keypair.to_bytes().to_vec())
}

/// The bytes in decimal digits, with a comma between one and the next.
pub open spec fn byte_items(bytes: Seq<u8>) -> Seq<char>
    decreases bytes.len(),
{
    if bytes.len() == 0 {
        Seq::empty()
    } else if bytes.len() == 1 {
        decimal_of(bytes.last() as nat)
    } else {
        byte_items(bytes.drop_last()) + ","@ + decimal_of(bytes.last() as nat)
    }
}

/// The bytes as a JSON array of numbers, without any white space.
pub open spec fn byte_list_of(bytes: Seq<u8>) -> Seq<char> {
    "["@ + byte_items(bytes) + "]"@
}

/// The bytes as a JSON array of numbers, without any white space: the
/// form in which the tools of the chain read a key pair from a file.
pub fn byte_list(bytes: &Vec<u8>) -> (out: String)
    ensures
        out@ == byte_list_of(bytes@),
{
    let mut out = String::from_str("[");
    let mut i: usize = 0;
    assert(bytes@.take(0) =~= Seq::empty());
    assert("["@ + Seq::<char>::empty() =~= "["@);
    while i < bytes.len()
        invariant
            i <= bytes.len(),
            out@ == "["@ + byte_items(bytes@.take(i as int)),
        decreases bytes.len() - i,
    {
        let ghost before = byte_items(bytes@.take(i as int));
        proof {
            assert(bytes@.take(i + 1).drop_last() =~= bytes@.take(i as int));
            assert(bytes@.take(i + 1).last() == bytes@[i as int]);
        }
        if i > 0 {
            out.append(",");
        }
        out.append(decimal(bytes[i] as u64).as_str());
        proof {
            if i > 0 {
                assert(out@ =~= "["@ + (before + ","@ + decimal_of(bytes@[i as int] as nat)));
            } else {
                assert(before =~= Seq::<char>::empty());
                assert(out@ =~= "["@ + decimal_of(bytes@[i as int] as nat));
            }
        }
        i += 1;
    }
    assert(bytes@.take(bytes.len() as int) =~= bytes@);
    out.append("]");
    out
}

/// A new key pair, ready to be written to its file.
#[derive(Debug, Clone, PartialEq, Eq)]
pub struct GeneratedKey {
    /// The public key, as text.
    pub pubkey: String,
    /// What the file of the key pair is to hold.
    pub file_content: String,
}

/// The mathematical value of a [`GeneratedKey`].
pub struct GeneratedKeyView {
    pub pubkey: Seq<char>,
    pub file_content: Seq<char>,
}

impl View for GeneratedKey {
    type V = GeneratedKeyView;

    open spec fn view(&self) -> GeneratedKeyView {
        GeneratedKeyView { pubkey: self.pubkey@, file_content: self.file_content@ }
    }
}

impl GeneratedKey {
    /// The key pair with the public key `pubkey` and the bytes `bytes`:
    /// its file is to hold the list of the bytes.
    pub fn new(pubkey: String, bytes: &Vec<u8>) -> (key: GeneratedKey)
        ensures
            key@ == (GeneratedKeyView { pubkey: pubkey@, file_content: byte_list_of(bytes@) }),
    {
        GeneratedKey { pubkey, file_content: byte_list(bytes) }
    }
}

/// Makes a new key pair by chance. The content for its file is the list
/// of the pair's [`KEYPAIR_BYTES`] bytes.
pub fn generate_keypair() -> (key: GeneratedKey)
    ensures
        exists|bytes: Seq<u8>|
            bytes.len() == KEYPAIR_BYTES && key@.file_content == byte_list_of(bytes),
{
    let (pubkey, bytes) = new_keypair();
    let key = GeneratedKey::new(pubkey, &bytes);
    assert(bytes@.len() == KEYPAIR_BYTES && key@.file_content == byte_list_of(bytes@));
    key
}

/// Which key a deployment uses.
#[derive(Debug, Clone, Copy, PartialEq, Eq)]
pub enum DeployChoice {
    /// The key that is there already.
    UseExisting,
    /// A new key, which gives the program a new address.
    Generate,
    /// None: the deployment is called off.
    Cancel,
}

/// What the user's selection means. Where a key is there, the choices are
/// to use it, to make a new one, and to call the deployment off; where
/// none is, to make one and to call the deployment off.
pub open spec fn deploy_choice_of(key_exists: bool, selection: usize) -> DeployChoice {
    if key_exists && selection == 0 {
        DeployChoice::UseExisting
    } else if (key_exists && selection == 1) || (!key_exists && selection == 0) {
        DeployChoice::Generate
    } else {
        DeployChoice::Cancel
    }
}

/// The choices that are put to the user, in their order.
pub open spec fn deploy_options_of(key_exists: bool) -> Seq<Seq<char>> {
    if key_exists {
        seq![
            "Use existing Stable Key (Recommended)"@,
            "Generate NEW Key (Warning: ID will change)"@,
            "Cancel"@,
        ]
    } else {
        seq!["Generate Stable Keypair (First Time)"@, "Cancel"@]
    }
}

/// The choices that are put to the user before a deployment.
pub fn deploy_options(key_exists: bool) -> (options: Vec<&'static str>)
    ensures
        options.deep_view() == deploy_options_of(key_exists),
{
    let options = if key_exists {
        vec![
            "Use existing Stable Key (Recommended)",
            "Generate NEW Key (Warning: ID will change)",
            "Cancel",
        ]
    } else {
        vec!["Generate Stable Keypair (First Time)", "Cancel"]
    };
    assert(options.deep_view() =~= deploy_options_of(key_exists));
    options
}

/// What the user's selection among the choices means.
pub fn deploy_choice(key_exists: bool, selection: usize) -> (choice: DeployChoice)
    ensures
        choice == deploy_choice_of(key_exists, selection),
{
    if key_exists && selection == 0 {
        DeployChoice::UseExisting
    } else if (key_exists && selection == 1) || (!key_exists && selection == 0) {
        DeployChoice::Generate
    } else {
        DeployChoice::Cancel
    }
}

} // verus!
