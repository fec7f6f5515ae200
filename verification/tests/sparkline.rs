use pulsewave::sparkline::sparkline_str;

#[test]
fn empty_data_gives_empty_line() {
    assert_eq!(sparkline_str(&[]), "");
}

#[test]
fn all_zero_gives_lowest_blocks() {
    assert_eq!(sparkline_str(&[0, 0, 0]), "\u{2581}\u{2581}\u{2581}");
}

#[test]
fn scale_runs_to_full_block() {
    assert_eq!(
        sparkline_str(&[1, 2, 3, 4, 5, 6, 7, 8]),
        "\u{2582}\u{2583}\u{2584}\u{2585}\u{2585}\u{2586}\u{2587}\u{2588}"
    );
}

#[test]
fn single_value_is_full_block() {
    assert_eq!(sparkline_str(&[42]), "\u{2588}");
}

#[test]
fn zero_next_to_peak() {
    assert_eq!(sparkline_str(&[0, 100, 50]), "\u{2581}\u{2588}\u{2585}");
}

#[test]
fn one_char_per_value_and_monotone() {
    let data = [5u64, 1, 9, 3, 9, 0];
    let line: Vec<char> = sparkline_str(&data).chars().collect();
    assert_eq!(line.len(), data.len());
    for i in 0..data.len() {
        for j in 0..data.len() {
            if data[i] <= data[j] {
                assert!(line[i] <= line[j]);
            }
        }
    }
}

#[test]
fn large_values_do_not_overflow() {
    assert_eq!(sparkline_str(&[u64::MAX, u64::MAX / 2, 0]), "\u{2588}\u{2584}\u{2581}");
}
