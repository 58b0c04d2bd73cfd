use stellar_contracts::contract::CertificateContract;
use stellar_contracts::errors::CertError;
use stellar_contracts::merkle::MerkleProof;

fn sha(data: &[u8]) -> Vec<u8> {
    let env = soroban_sdk::Env::default();
    let bytes = soroban_sdk::Bytes::from_slice(&env, data);
    env.crypto().sha256(&bytes).to_array().to_vec()
}

#[test]
fn test_verify_merkle_batch_with_partial_success() {
    let leaf1 = sha(b"leaf-1");
    let leaf2 = sha(b"leaf-2");

    let root = leaf1.clone();

    let proofs = vec![
        MerkleProof {
            leaf: leaf1.clone(),
            siblings: vec![],
        },
        MerkleProof {
            leaf: leaf2.clone(),
            siblings: vec![],
        },
    ];

    let results = CertificateContract::verify_merkle_batch(&root, &proofs).unwrap();

    assert_eq!(results.len(), 2);

    assert_eq!(results[0].leaf, leaf1);
    assert!(results[0].is_valid);

    assert_eq!(results[1].leaf, leaf2);
    assert!(!results[1].is_valid);
}

#[test]
fn merkle_single_sibling_is_order_sensitive() {
    let left = sha(b"left");
    let right = sha(b"right");

    let mut concatenated = left.clone();
    concatenated.extend_from_slice(&right);
    let root = sha(&concatenated);

    let straight = vec![MerkleProof {
        leaf: left.clone(),
        siblings: vec![right.clone()],
    }];
    let results = CertificateContract::verify_merkle_batch(&root, &straight).unwrap();
    assert_eq!(results.len(), 1);
    assert!(results[0].is_valid);

    let swapped = vec![MerkleProof {
        leaf: right.clone(),
        siblings: vec![left.clone()],
    }];
    let swapped_results = CertificateContract::verify_merkle_batch(&root, &swapped).unwrap();
    assert_eq!(swapped_results.len(), 1);
    assert!(!swapped_results[0].is_valid);
}

#[test]
fn merkle_hash_matches_known_sha256_value() {
    // sha256(b"abc"), a published reference value.
    let expected_root = vec![
        0xba, 0x78, 0x16, 0xbf, 0x8f, 0x01, 0xcf, 0xea, 0x41, 0x41, 0x40, 0xde, 0x5d, 0xae,
        0x22, 0x23, 0xb0, 0x03, 0x61, 0xa3, 0x96, 0x17, 0x7a, 0x9c, 0xb4, 0x10, 0xff, 0x61,
        0xf2, 0x00, 0x15, 0xad,
    ];
    let proofs = vec![MerkleProof {
        leaf: b"a".to_vec(),
        siblings: vec![b"bc".to_vec()],
    }];
    let results = CertificateContract::verify_merkle_batch(&expected_root, &proofs).unwrap();
    assert_eq!(results.len(), 1);
    assert!(results[0].is_valid);
}

#[test]
fn merkle_two_level_path() {
    let leaf = sha(b"bottom");
    let sib1 = sha(b"first-sibling");
    let sib2 = sha(b"second-sibling");

    let mut level1 = leaf.clone();
    level1.extend_from_slice(&sib1);
    let mid = sha(&level1);

    let mut level2 = mid.clone();
    level2.extend_from_slice(&sib2);
    let root = sha(&level2);

    let proofs = vec![MerkleProof {
        leaf: leaf.clone(),
        siblings: vec![sib1.clone(), sib2.clone()],
    }];
    let results = CertificateContract::verify_merkle_batch(&root, &proofs).unwrap();
    assert!(results[0].is_valid);

    let misordered = vec![MerkleProof {
        leaf: leaf.clone(),
        siblings: vec![sib2, sib1],
    }];
    let misordered_results = CertificateContract::verify_merkle_batch(&root, &misordered).unwrap();
    assert!(!misordered_results[0].is_valid);
}

#[test]
fn merkle_empty_batch_returns_empty_report() {
    let root = sha(b"whatever");
    let proofs: Vec<MerkleProof> = vec![];
    let results = CertificateContract::verify_merkle_batch(&root, &proofs).unwrap();
    assert!(results.is_empty());
}

#[test]
fn merkle_batch_accepts_batch_of_maximum_size() {
    let root = sha(b"root");
    let proofs: Vec<MerkleProof> = (0..50)
        .map(|i| MerkleProof {
            leaf: vec![i as u8; 32],
            siblings: vec![],
        })
        .collect();
    let results = CertificateContract::verify_merkle_batch(&root, &proofs).unwrap();
    assert_eq!(results.len(), 50);
    assert!(results.iter().all(|r| !r.is_valid));
}

#[test]
fn merkle_batch_rejects_oversized_batch() {
    let root = sha(b"root");
    let proofs: Vec<MerkleProof> = (0..51)
        .map(|i| MerkleProof {
            leaf: vec![i as u8; 32],
            siblings: vec![],
        })
        .collect();
    let result = CertificateContract::verify_merkle_batch(&root, &proofs);
    assert!(matches!(result, Err(CertError::BatchTooLarge)));
}
