use kzg_rs::EnvKzgSettings;

#[test]
fn test_output_ethereum_kzg_settings() {
    let settings = EnvKzgSettings::default();
    let loaded = settings.get();
    println!("{:?}", loaded);
    assert!(!loaded.g1_points.is_empty());
}
