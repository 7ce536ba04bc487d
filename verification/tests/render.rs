use atlas::render::{glow_alpha, has_flare, spoke_alpha};

#[test]
fn glow_alpha_of_the_bands() {
    assert_eq!(glow_alpha(230), 58);
    assert_eq!(glow_alpha(195), 49);
    assert_eq!(glow_alpha(155), 39);
    assert_eq!(glow_alpha(110), 28);
    assert_eq!(glow_alpha(60), 15);
    assert_eq!(glow_alpha(25), 6);
}

#[test]
fn glow_alpha_extremes() {
    assert_eq!(glow_alpha(0), 0);
    assert_eq!(glow_alpha(255), 65);
    assert_eq!(glow_alpha(3), 0);
    assert_eq!(glow_alpha(4), 1);
}

#[test]
fn spoke_alpha_alternates() {
    let got: Vec<u8> = (0..8u32).map(spoke_alpha).collect();
    assert_eq!(got, vec![50, 20, 50, 20, 50, 20, 50, 20]);
}

#[test]
fn only_bright_stars_flare() {
    assert!(!has_flare(0));
    assert!(!has_flare(220));
    assert!(has_flare(221));
    assert!(has_flare(255));
}
