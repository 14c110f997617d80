use termcad::particles::{particle_draws, ParticleDraw};

#[test]
fn default_seed_stream() {
    let d = particle_draws(2, 12345);
    assert_eq!(
        d,
        vec![
            ParticleDraw { x: 54236, y: 42756, z: 54885 },
            ParticleDraw { x: 3498, y: 49695, z: 16045 },
        ]
    );
}

#[test]
fn zero_seed_means_default_seed() {
    assert_eq!(particle_draws(50, 0), particle_draws(50, 12345));
}

#[test]
fn same_parameters_same_cloud() {
    assert_eq!(particle_draws(100, 7), particle_draws(100, 7));
    assert_eq!(particle_draws(1, 7), vec![ParticleDraw { x: 52332, y: 9806, z: 10868 }]);
    assert_ne!(particle_draws(10, 7), particle_draws(10, 8));
}

#[test]
fn count_zero_is_empty() {
    assert!(particle_draws(0, 99).is_empty());
    assert_eq!(particle_draws(1000, 3).len(), 1000);
}
