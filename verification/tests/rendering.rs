use argument_number::ArgumentNumber;

#[test]
fn render_handle_three() {
    assert_eq!(ArgumentNumber::Handle(3).render(), "associated with handle number 3");
}

#[test]
fn render_parameter() {
    assert_eq!(ArgumentNumber::Parameter(0).render(), "associated with parameter number 0");
    assert_eq!(ArgumentNumber::Parameter(5).render(), "associated with parameter number 5");
    assert_eq!(ArgumentNumber::Parameter(15).render(), "associated with parameter number 15");
}

#[test]
fn render_session() {
    assert_eq!(ArgumentNumber::Session(0).render(), "associated with session number 0");
    assert_eq!(ArgumentNumber::Session(7).render(), "associated with session number 7");
}

#[test]
fn render_numbers_of_each_length() {
    assert_eq!(ArgumentNumber::Handle(9).render(), "associated with handle number 9");
    assert_eq!(ArgumentNumber::Handle(10).render(), "associated with handle number 10");
    assert_eq!(ArgumentNumber::Handle(99).render(), "associated with handle number 99");
    assert_eq!(ArgumentNumber::Handle(100).render(), "associated with handle number 100");
    assert_eq!(ArgumentNumber::Handle(101).render(), "associated with handle number 101");
    assert_eq!(ArgumentNumber::Handle(110).render(), "associated with handle number 110");
    assert_eq!(ArgumentNumber::Handle(200).render(), "associated with handle number 200");
    assert_eq!(ArgumentNumber::Handle(255).render(), "associated with handle number 255");
}

#[test]
fn render_writes_every_number_in_decimal() {
    for number in 0..=255u8 {
        assert_eq!(
            ArgumentNumber::Parameter(number).render(),
            format!("associated with parameter number {}", number)
        );
        assert_eq!(
            ArgumentNumber::Session(number).render(),
            format!("associated with session number {}", number)
        );
        assert_eq!(
            ArgumentNumber::Handle(number).render(),
            format!("associated with handle number {}", number)
        );
    }
}

#[test]
fn render_of_a_decoded_byte() {
    assert_eq!(
        ArgumentNumber::from(0b0001_0101).render(),
        "associated with parameter number 5"
    );
    assert_eq!(ArgumentNumber::from(0b0010_0000).render(), "associated with session number 0");
}

#[test]
fn argument_numbers_are_plain_values() {
    let argument = ArgumentNumber::Session(2);
    let copy = argument;
    assert_eq!(argument, copy);
    assert_eq!(argument.clone(), copy);
    assert_ne!(argument, ArgumentNumber::Handle(2));
    assert_ne!(argument, ArgumentNumber::Session(3));
    assert_eq!(format!("{:?}", argument), "Session(2)");
}
