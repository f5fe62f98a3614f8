use my_java_lib::record::Foo;

#[test]
fn new_record_reads_back_its_argument() {
    assert_eq!(Foo::new(7).val(), 7);
    assert_eq!(Foo::new(0).val(), 0);
    assert_eq!(Foo::new(-1).val(), -1);
}

#[test]
fn new_record_reads_back_the_extremes() {
    assert_eq!(Foo::new(i32::MIN).val(), i32::MIN);
    assert_eq!(Foo::new(i32::MAX).val(), i32::MAX);
}

#[test]
fn set_field_replaces_the_constructor_argument() {
    let mut record = Foo::new(1);
    record.set_field(2);
    assert_eq!(record.val(), 2);
}

#[test]
fn set_field_to_the_extremes() {
    let mut record = Foo::new(0);
    record.set_field(i32::MAX);
    assert_eq!(record.val(), i32::MAX);
    record.set_field(i32::MIN);
    assert_eq!(record.val(), i32::MIN);
}

#[test]
fn set_field_twice_is_set_field_once() {
    let mut once = Foo::new(5);
    once.set_field(42);
    let mut twice = Foo::new(5);
    twice.set_field(42);
    twice.set_field(42);
    assert_eq!(once.val(), 42);
    assert_eq!(twice.val(), once.val());
}

#[test]
fn record_holds_the_last_integer_set() {
    let mut record = Foo::new(10);
    let vals = [3, -8, 3, 0, 2_000_000_000, -2_000_000_000, 17];
    for v in vals {
        record.set_field(v);
        assert_eq!(record.val(), v);
    }
    assert_eq!(record.val(), 17);
}

#[test]
fn val_leaves_the_record_as_it_is() {
    let mut record = Foo::new(12);
    assert_eq!(record.val(), 12);
    assert_eq!(record.val(), 12);
    record.set_field(-12);
    assert_eq!(record.val(), -12);
    assert_eq!(record.val(), -12);
}

#[test]
fn records_do_not_share_what_they_hold() {
    let mut first = Foo::new(1);
    let second = Foo::new(2);
    first.set_field(3);
    assert_eq!(first.val(), 3);
    assert_eq!(second.val(), 2);
}

#[test]
fn record_is_reachable_from_the_crate_root() {
    let mut record = my_java_lib::Foo::new(4);
    record.set_field(5);
    assert_eq!(record.val(), 5);
}
