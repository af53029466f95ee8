use neurust::keys::{
    byte_list, deploy_choice, deploy_options, generate_keypair, DeployChoice, GeneratedKey,
};

#[test]
fn byte_list_is_compact_json() {
    assert_eq!(byte_list(&vec![]), "[]");
    assert_eq!(byte_list(&vec![7]), "[7]");
    assert_eq!(byte_list(&vec![0, 10, 255]), "[0,10,255]");
    let all: Vec<u8> = (0..=255).collect();
    assert_eq!(byte_list(&all), serde_json::to_string(&all).unwrap());
}

#[test]
fn generated_key_pair_lists_its_bytes() {
    let key = generate_keypair();
    let bytes: Vec<u8> = serde_json::from_str(&key.file_content).unwrap();
    assert_eq!(bytes.len(), 64);
    assert_eq!(byte_list(&bytes), key.file_content);
    assert!(!key.pubkey.is_empty());
    assert_ne!(generate_keypair().file_content, key.file_content);
}

#[test]
fn generated_public_key_is_the_second_half_of_the_pair() {
    let key = generate_keypair();
    let bytes: Vec<u8> = serde_json::from_str(&key.file_content).unwrap();
    let pair = solana_keypair::Keypair::try_from(&bytes[..]).unwrap();
    assert_eq!(solana_signer::Signer::pubkey(&pair).to_string(), key.pubkey);
}

#[test]
fn deploy_choices_with_a_key() {
    assert_eq!(
        deploy_options(true),
        vec![
            "Use existing Stable Key (Recommended)",
            "Generate NEW Key (Warning: ID will change)",
            "Cancel"
        ]
    );
    assert_eq!(deploy_choice(true, 0), DeployChoice::UseExisting);
    assert_eq!(deploy_choice(true, 1), DeployChoice::Generate);
    assert_eq!(deploy_choice(true, 2), DeployChoice::Cancel);
    assert_eq!(deploy_choice(true, 9), DeployChoice::Cancel);
}

#[test]
fn deploy_choices_without_a_key() {
    assert_eq!(deploy_options(false), vec!["Generate Stable Keypair (First Time)", "Cancel"]);
    assert_eq!(deploy_choice(false, 0), DeployChoice::Generate);
    assert_eq!(deploy_choice(false, 1), DeployChoice::Cancel);
    assert_eq!(deploy_choice(false, 2), DeployChoice::Cancel);
}

#[test]
fn key_pair_is_written_as_the_list_of_its_bytes() {
    let key = GeneratedKey::new(String::from("Abc123"), &vec![1, 2, 200]);
    assert_eq!(key.pubkey, "Abc123");
    assert_eq!(key.file_content, "[1,2,200]");
}
