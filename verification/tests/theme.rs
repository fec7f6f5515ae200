use pulsewave::ratio::Ratio;
use pulsewave::theme::{bad, good, host_color, latency_color, loss_color, warn, Rgb};

#[test]
fn latency_thresholds() {
    assert_eq!(latency_color(0), good());
    assert_eq!(latency_color(49_999), good());
    assert_eq!(latency_color(50_000), warn());
    assert_eq!(latency_color(149_999), warn());
    assert_eq!(latency_color(150_000), bad());
    assert_eq!(latency_color(u64::MAX), bad());
}

#[test]
fn palette_values() {
    assert_eq!(good(), Rgb { r: 80, g: 250, b: 123 });
    assert_eq!(warn(), Rgb { r: 241, g: 250, b: 140 });
    assert_eq!(bad(), Rgb { r: 255, g: 85, b: 85 });
}

#[test]
fn host_colors_cycle() {
    assert_eq!(host_color(0), Rgb { r: 0, g: 255, b: 255 });
    assert_eq!(host_color(1), Rgb { r: 255, g: 121, b: 198 });
    assert_eq!(host_color(5), Rgb { r: 189, g: 147, b: 249 });
    for i in 0..30usize {
        assert_eq!(host_color(i), host_color(i + 6));
    }
    for i in 0..6usize {
        for j in 0..6usize {
            if i != j {
                assert_ne!(host_color(i), host_color(j));
            }
        }
    }
}

#[test]
fn loss_colors() {
    assert_eq!(loss_color(Ratio { num: 0, den: 1 }), good());
    assert_eq!(loss_color(Ratio { num: 100, den: 3 }), bad());
}
