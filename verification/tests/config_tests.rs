use mapgen::config::MapGenConfig;
use mapgen::scalar::Scalar;

fn f(s: Scalar) -> f32 {
    f32::from_bits(s.to_bits())
}

#[test]
fn default_identity() {
    let c = MapGenConfig::default();
    assert_eq!(c.name, "Default Multi-Noise");
    assert_eq!(c.description, "Default stacked noise terrain generation");
    assert_eq!(c.seed, 42);
}

#[test]
fn default_layers() {
    let c = MapGenConfig::default();
    assert_eq!(f(c.continentalness.scale), 3.0);
    assert_eq!(c.continentalness.octaves, 5);
    assert_eq!(f(c.continentalness.lacunarity), 2.0);
    assert_eq!(f(c.continentalness.gain), 0.5);
    assert_eq!(f(c.erosion.scale), 8.0);
    assert_eq!(c.erosion.octaves, 4);
    assert_eq!(f(c.erosion.lacunarity), 2.0);
    assert_eq!(f(c.erosion.gain), 0.5);
    assert_eq!(f(c.peaks_valleys.scale), 18.0);
    assert_eq!(c.peaks_valleys.octaves, 5);
    assert_eq!(f(c.peaks_valleys.lacunarity), 2.0);
    assert_eq!(f(c.peaks_valleys.gain), 0.5);
}

#[test]
fn default_weights_and_vertical() {
    let c = MapGenConfig::default();
    assert_eq!(f(c.weights.continentalness), 0.9);
    assert_eq!(f(c.weights.peaks_valleys), 1.0);
    assert_eq!(f(c.weights.erosion), 0.35);
    assert_eq!(f(c.vertical.bias), 1.8);
    assert_eq!(f(c.vertical.min_y), -128.0);
    assert_eq!(f(c.vertical.max_y), 128.0);
}

#[test]
fn default_thresholds() {
    let c = MapGenConfig::default();
    assert_eq!(c.material_thresholds.stone_max, 32);
    assert_eq!(c.material_thresholds.grass_max, 64);
    assert_eq!(f(c.density_threshold), -0.2);
}

#[test]
fn default_is_well_formed() {
    let c = MapGenConfig::default();
    let zero = Scalar::from_bits(0);
    assert!(c.continentalness.scale.gt(zero));
    assert!(c.erosion.scale.gt(zero));
    assert!(c.peaks_valleys.scale.gt(zero));
    assert!(c.continentalness.octaves >= 1);
    assert!(c.erosion.octaves >= 1);
    assert!(c.peaks_valleys.octaves >= 1);
    assert!(c.vertical.min_y.lt(c.vertical.max_y));
    assert!(c.material_thresholds.stone_max < c.material_thresholds.grass_max);
}

#[test]
fn clone_keeps_every_field() {
    let c = MapGenConfig::default();
    let d = c.clone();
    assert_eq!(c.name, d.name);
    assert_eq!(c.seed, d.seed);
    assert_eq!(c.erosion.scale.bits, d.erosion.scale.bits);
    assert_eq!(c.density_threshold.bits, d.density_threshold.bits);
}
