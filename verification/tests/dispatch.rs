use gkr_service::dispatch::{select_pipeline, Pipeline, Scheme, TranscriptHash};
use gkr_service::field::{detect_field_type, FieldType};

#[test]
fn each_field_has_its_pipeline() {
    assert_eq!(select_pipeline(FieldType::M31), Pipeline::M31ExtSha2);
    assert_eq!(select_pipeline(FieldType::BN254), Pipeline::BN254MIMC5);
    assert_eq!(select_pipeline(FieldType::GF2), Pipeline::GF2ExtSha2);
}

#[test]
fn pipeline_computes_in_the_field_it_was_chosen_for() {
    for tag in [FieldType::M31, FieldType::BN254, FieldType::GF2] {
        assert_eq!(select_pipeline(tag).field(), tag);
    }
}

#[test]
fn pipelines_hash_and_scheme() {
    assert_eq!(Pipeline::M31ExtSha2.hash(), TranscriptHash::Sha2);
    assert_eq!(Pipeline::BN254MIMC5.hash(), TranscriptHash::MIMC5);
    assert_eq!(Pipeline::GF2ExtSha2.hash(), TranscriptHash::Sha2);
    for p in [Pipeline::M31ExtSha2, Pipeline::BN254MIMC5, Pipeline::GF2ExtSha2] {
        assert_eq!(p.scheme(), Scheme::Vanilla);
    }
}

#[test]
fn circuit_file_with_the_m31_sentinel_runs_the_m31_pipeline() {
    let mut file = vec![0u8; 8];
    file.extend_from_slice(&[255, 255, 255, 127]);
    file.extend_from_slice(&[0u8; 28]);
    file.extend_from_slice(&[1, 2, 3, 4, 5, 6]);
    let tag = detect_field_type(&file).unwrap();
    assert_eq!(select_pipeline(tag), Pipeline::M31ExtSha2);
}
