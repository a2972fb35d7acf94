use iced_recorder::naming::{checkpoint_file_name, checkpoint_label, push_decimal};

fn text(bytes: Vec<u8>) -> String {
    String::from_utf8(bytes).unwrap()
}

#[test]
fn labels_are_zero_padded_to_four_digits() {
    assert_eq!(text(checkpoint_label(1)), "checkpoint_0001");
    assert_eq!(text(checkpoint_label(0)), "checkpoint_0000");
    assert_eq!(text(checkpoint_label(42)), "checkpoint_0042");
    assert_eq!(text(checkpoint_label(9999)), "checkpoint_9999");
    assert_eq!(text(checkpoint_label(12345)), "checkpoint_12345");
}

#[test]
fn labels_agree_with_format() {
    for n in [0usize, 7, 10, 99, 100, 1000, 10000, 123456789] {
        assert_eq!(text(checkpoint_label(n)), format!("checkpoint_{:04}", n));
        assert_eq!(text(checkpoint_file_name(n)), format!("checkpoint_{:04}.tmp", n));
    }
}

#[test]
fn file_names_end_in_tmp() {
    assert_eq!(text(checkpoint_file_name(3)), "checkpoint_0003.tmp");
}

#[test]
fn decimal_digits_are_appended() {
    let mut out = vec![b'x'];
    push_decimal(907, &mut out);
    assert_eq!(text(out), "x907");
}

#[test]
fn distinct_numbers_give_distinct_names() {
    let names: Vec<Vec<u8>> = (0..200usize).map(checkpoint_file_name).collect();
    for i in 0..names.len() {
        for j in (i + 1)..names.len() {
            assert_ne!(names[i], names[j]);
        }
    }
}
