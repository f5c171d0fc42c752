use raytracer::christoffel::{sym_index, Christoffel};

#[test]
fn lower_indices_share_a_slot() {
    assert_eq!(sym_index(0, 0, 0), 0);
    assert_eq!(sym_index(1, 2, 1), sym_index(1, 1, 2));
    assert_eq!(sym_index(1, 1, 2), 22);
    assert_eq!(sym_index(3, 3, 3), 63);
    for mu in 0..4 {
        for alpha in 0..4 {
            for beta in 0..4 {
                assert_eq!(sym_index(mu, alpha, beta), sym_index(mu, beta, alpha));
                assert!(sym_index(mu, alpha, beta) < 64);
            }
        }
    }
}

#[test]
fn lookup_is_symmetric_for_every_table() {
    // Fill the table with distinct words so an asymmetric lookup would
    // be caught.
    let mut words: Vec<u64> = Vec::new();
    for i in 0..64u64 {
        words.push(i * i + 1);
    }
    let c = Christoffel::new(words);
    for mu in 0..4 {
        for alpha in 0..4 {
            for beta in 0..4 {
                assert_eq!(c.get(mu, alpha, beta), c.get(mu, beta, alpha));
            }
        }
    }
    // The normalized slot is the one with the lower pair ordered.
    assert_eq!(c.get(1, 2, 1), (22 * 22 + 1) as u64);
}
