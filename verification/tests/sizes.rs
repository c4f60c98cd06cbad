use laberry_core::admin::admin_format_bytes;

fn reference(size: i64) -> String {
    if size <= 0 {
        return "размер неизвестен".to_string();
    }
    let mut v = size as f64;
    let units = ["Б", "КБ", "МБ", "ГБ"];
    let mut idx = 0usize;
    while v >= 1024.0 && idx + 1 < units.len() {
        v /= 1024.0;
        idx += 1;
    }
    if idx == 0 {
        format!("{} {}", size, units[idx])
    } else {
        format!("{:.1} {}", v, units[idx])
    }
}

#[test]
fn format_bytes_small_values() {
    assert_eq!(admin_format_bytes(0), "размер неизвестен");
    assert_eq!(admin_format_bytes(-5), "размер неизвестен");
    assert_eq!(admin_format_bytes(1), "1 Б");
    assert_eq!(admin_format_bytes(1023), "1023 Б");
}

#[test]
fn format_bytes_units() {
    assert_eq!(admin_format_bytes(1024), "1.0 КБ");
    assert_eq!(admin_format_bytes(1536), "1.5 КБ");
    assert_eq!(admin_format_bytes(1048576), "1.0 МБ");
    assert_eq!(admin_format_bytes(1073741824), "1.0 ГБ");
    assert_eq!(admin_format_bytes(1099511627776), "1024.0 ГБ");
}

#[test]
fn format_bytes_matches_float_formatting() {
    let mut sizes: Vec<i64> = vec![1280, 1075, 1126, 1177, 3328, 1048575, 1073741823, i64::MAX, i64::MAX - 1];
    for k in 0..62 {
        let p = 1i64 << k;
        sizes.push(p);
        sizes.push(p + 1);
        sizes.push(p - 1);
        sizes.push(p + p / 2);
        sizes.push(p + p / 20);
    }
    let mut x: i64 = 12345;
    for _ in 0..5000 {
        x = x.wrapping_mul(6364136223846793005).wrapping_add(1442695040888963407);
        let v = (x >> 1) >> (x as u64 % 60);
        sizes.push(v);
        sizes.push(v % 5000);
        sizes.push((v % 100000) * 1024 / 10);
    }
    for s in sizes {
        assert_eq!(admin_format_bytes(s), reference(s), "size {}", s);
    }
}
