use fanctl::sensors::is_cpu_label;

#[test]
fn package_sensor_is_the_cpu() {
    assert!(is_cpu_label("Package id 0"));
    assert!(is_cpu_label("Package"));
    assert!(is_cpu_label("coretemp Package id 1"));
}

#[test]
fn other_sensors_are_not_the_cpu() {
    assert!(!is_cpu_label("Core 0"));
    assert!(!is_cpu_label("package id 0"));
    assert!(!is_cpu_label("Packag"));
    assert!(!is_cpu_label(""));
}
