use raytracer::perlin::perlin_generate_perm;
use raytracer::rng::Random;

#[test]
fn sample_in_range_stays_in_range() {
    let mut rng = Random::seed(1);
    for _ in 0..1000 {
        let s = rng.sample_in_range(3, 17);
        assert!((3..17).contains(&s));
    }
}

#[test]
fn permute_keeps_the_elements() {
    let mut rng = Random::seed(42);
    let mut v: Vec<usize> = (0..100).collect();
    rng.permute(&mut v);
    assert_eq!(v.len(), 100);
    let mut sorted = v.clone();
    sorted.sort_unstable();
    let identity: Vec<usize> = (0..100).collect();
    assert_eq!(sorted, identity);
}

#[test]
fn permute_handles_tiny_vectors() {
    let mut rng = Random::seed(3);
    let mut empty: Vec<usize> = Vec::new();
    rng.permute(&mut empty);
    assert!(empty.is_empty());

    let mut single = vec![9usize];
    rng.permute(&mut single);
    assert_eq!(single, vec![9]);
}

/// The generator is deterministic for a fixed seed: two runs with the same
/// seed produce bit-identical results.
#[test]
fn seeded_runs_reproduce() {
    let run = |seed: u64| {
        let mut rng = Random::seed(seed);
        let mut v: Vec<usize> = (0..64).collect();
        rng.permute(&mut v);
        let samples: Vec<usize> = (0..32).map(|_| rng.sample_in_range(0, 1000)).collect();
        (v, samples)
    };
    assert_eq!(run(12345), run(12345));
}

#[test]
fn perlin_perm_is_a_permutation() {
    let mut rng = Random::seed(7);
    let perm = perlin_generate_perm(256, &mut rng);
    assert_eq!(perm.len(), 256);
    let mut sorted = perm.clone();
    sorted.sort_unstable();
    let identity: Vec<usize> = (0..256).collect();
    assert_eq!(sorted, identity);
}

#[test]
fn perlin_perm_empty_table() {
    let mut rng = Random::seed(7);
    let perm = perlin_generate_perm(0, &mut rng);
    assert!(perm.is_empty());
}
