use audio_spectrum::{taper, SpectrumError};

#[test]
fn empty_buffer_cannot_be_tapered() {
    assert_eq!(taper(&Vec::new(), 0), Err(SpectrumError::InvalidInput));
}

#[test]
fn window_must_be_as_long_as_the_buffer() {
    let samples: Vec<i64> = vec![1, 2, 3, 4];
    assert_eq!(taper(&samples, 3), Err(SpectrumError::InvalidInput));
    assert_eq!(taper(&samples, 5), Err(SpectrumError::InvalidInput));
    assert_eq!(taper(&samples, 0), Err(SpectrumError::InvalidInput));
}

#[test]
fn odd_window_reaches_one_at_the_centre() {
    let samples: Vec<i64> = vec![100, 100, 100, 100, 100];
    assert_eq!(taper(&samples, 5), Ok(vec![0, 50, 100, 50, 0]));
}

#[test]
fn even_window_has_two_equal_central_weights() {
    let samples: Vec<i64> = vec![300, 300, 300, 300];
    assert_eq!(taper(&samples, 4), Ok(vec![0, 200, 200, 0]));
}

#[test]
fn both_ends_are_silenced() {
    let samples: Vec<i64> = vec![i64::MAX, 7, i64::MIN];
    assert_eq!(taper(&samples, 3), Ok(vec![0, 7, 0]));
}

#[test]
fn single_sample_is_silenced() {
    assert_eq!(taper(&vec![5], 1), Ok(vec![0]));
}

#[test]
fn two_samples_are_both_ends() {
    assert_eq!(taper(&vec![9, -9], 2), Ok(vec![0, 0]));
}

#[test]
fn products_round_towards_zero() {
    let samples: Vec<i64> = vec![7, 7, -7, -7];
    assert_eq!(taper(&samples, 4), Ok(vec![0, 4, -4, 0]));
}

#[test]
fn extreme_samples_keep_their_size_at_the_centre() {
    let samples: Vec<i64> = vec![0, i64::MIN, 0];
    assert_eq!(taper(&samples, 3), Ok(vec![0, i64::MIN, 0]));
    let samples: Vec<i64> = vec![0, i64::MAX, 0];
    assert_eq!(taper(&samples, 3), Ok(vec![0, i64::MAX, 0]));
}

#[test]
fn weights_mirror_about_the_centre() {
    let samples: Vec<i64> = vec![1000; 9];
    let shaped = taper(&samples, 9).unwrap();
    assert_eq!(shaped, vec![0, 250, 500, 750, 1000, 750, 500, 250, 0]);
    for i in 0..9 {
        assert_eq!(shaped[i], shaped[8 - i]);
        assert!(shaped[i] <= shaped[4]);
    }
}
