use powermeter::max1704x::{
    Max17048, Outcome, Reply, Transfer, DEFAULT_RCOMP, MAX17048_ADDR, REGISTER_CONFIG,
};

#[derive(Clone, Copy, Debug, PartialEq, Eq)]
struct BusError(u8);

fn idle() -> Max17048 {
    let mut driver = Max17048::new();
    assert_eq!(driver.complete(Reply::Failed(BusError(0))), Outcome::Failed(BusError(0)));
    assert_eq!(driver.transfer(), None);
    driver
}

#[test]
fn a_new_driver_sets_the_default_compensation() {
    let mut driver = Max17048::new();
    assert_eq!(
        driver.transfer(),
        Some(Transfer::WriteRead { address: 0x36, register: 0x0C })
    );
    // the configuration reads 0x1234: the low byte stays, the high byte becomes 0x97
    assert_eq!(
        driver.complete::<BusError>(Reply::Read(0x12, 0x34)),
        Outcome::Next(Transfer::WriteOne { address: 0x36, byte: 0x0C })
    );
    assert_eq!(
        driver.complete::<BusError>(Reply::Written),
        Outcome::Next(Transfer::WriteTwo { address: 0x36, first: 0x97, second: 0x34 })
    );
    assert_eq!(driver.complete::<BusError>(Reply::Written), Outcome::Written);
    assert_eq!(driver.transfer(), None);
}

#[test]
fn the_constants_are_those_of_the_device() {
    assert_eq!(MAX17048_ADDR, 0x36);
    assert_eq!(DEFAULT_RCOMP, 0x97);
    assert_eq!(REGISTER_CONFIG, 0x0C);
}

#[test]
fn the_version_is_the_word_of_register_8() {
    let mut driver = idle();
    assert_eq!(driver.version(), Transfer::WriteRead { address: 0x36, register: 0x08 });
    assert_eq!(driver.transfer(), Some(Transfer::WriteRead { address: 0x36, register: 0x08 }));
    assert_eq!(driver.complete::<BusError>(Reply::Read(0x00, 0x12)), Outcome::Value(0x0012));
    assert_eq!(driver.transfer(), None);
    driver.version();
    assert_eq!(driver.complete::<BusError>(Reply::Read(0xAB, 0xCD)), Outcome::Value(0xABCD));
}

#[test]
fn the_state_of_charge_is_the_high_byte_of_register_4() {
    let mut driver = idle();
    assert_eq!(driver.soc(), Transfer::WriteRead { address: 0x36, register: 0x04 });
    assert_eq!(driver.complete::<BusError>(Reply::Read(87, 200)), Outcome::Value(87));
    driver.soc();
    assert_eq!(driver.complete::<BusError>(Reply::Read(0xFF, 0xFF)), Outcome::Value(255));
    driver.soc();
    assert_eq!(driver.complete::<BusError>(Reply::Read(0, 0xFF)), Outcome::Value(0));
}

#[test]
fn voltage_and_charge_rate_are_read_raw() {
    let mut driver = idle();
    assert_eq!(driver.vcell(), Transfer::WriteRead { address: 0x36, register: 0x02 });
    assert_eq!(driver.complete::<BusError>(Reply::Read(0xC8, 0x00)), Outcome::Value(0xC800));
    assert_eq!(driver.charge_rate(), Transfer::WriteRead { address: 0x36, register: 0x16 });
    assert_eq!(driver.complete::<BusError>(Reply::Read(0x00, 0x05)), Outcome::Value(5));
}

#[test]
fn any_register_can_be_read() {
    let mut driver = idle();
    assert_eq!(driver.read(0x1A), Transfer::WriteRead { address: 0x36, register: 0x1A });
    assert_eq!(driver.complete::<BusError>(Reply::Read(1, 2)), Outcome::Value(258));
}

#[test]
fn a_write_sends_the_register_and_then_the_value() {
    let mut driver = idle();
    assert_eq!(driver.write(0x0C, 0xBEEF), Transfer::WriteOne { address: 0x36, byte: 0x0C });
    assert_eq!(
        driver.complete::<BusError>(Reply::Written),
        Outcome::Next(Transfer::WriteTwo { address: 0x36, first: 0xBE, second: 0xEF })
    );
    assert_eq!(
        driver.transfer(),
        Some(Transfer::WriteTwo { address: 0x36, first: 0xBE, second: 0xEF })
    );
    assert_eq!(driver.complete::<BusError>(Reply::Written), Outcome::Written);
    assert_eq!(driver.transfer(), None);
}

#[test]
fn compensation_keeps_the_low_byte_of_the_configuration() {
    for (config, rcomp, first, second) in
        [((0x97u8, 0x1Cu8), 0x40u8, 0x40u8, 0x1Cu8), ((0, 0), 0xFF, 0xFF, 0), ((0xFF, 0xFF), 0, 0, 0xFF)]
    {
        let mut driver = idle();
        assert_eq!(
            driver.compensation(rcomp),
            Transfer::WriteRead { address: 0x36, register: 0x0C }
        );
        assert_eq!(
            driver.complete::<BusError>(Reply::Read(config.0, config.1)),
            Outcome::Next(Transfer::WriteOne { address: 0x36, byte: 0x0C })
        );
        assert_eq!(
            driver.complete::<BusError>(Reply::Written),
            Outcome::Next(Transfer::WriteTwo { address: 0x36, first, second })
        );
        assert_eq!(driver.complete::<BusError>(Reply::Written), Outcome::Written);
    }
}

#[test]
fn a_failure_ends_the_operation_at_every_stage() {
    let mut driver = idle();
    driver.version();
    assert_eq!(driver.complete(Reply::Failed(BusError(1))), Outcome::Failed(BusError(1)));
    assert_eq!(driver.transfer(), None);

    driver.compensation(1);
    assert_eq!(driver.complete(Reply::Failed(BusError(2))), Outcome::Failed(BusError(2)));
    assert_eq!(driver.transfer(), None);

    driver.compensation(1);
    driver.complete::<BusError>(Reply::Read(0, 0));
    assert_eq!(driver.complete(Reply::Failed(BusError(3))), Outcome::Failed(BusError(3)));
    assert_eq!(driver.transfer(), None);

    driver.write(1, 2);
    driver.complete::<BusError>(Reply::Written);
    assert_eq!(driver.complete(Reply::Failed(BusError(4))), Outcome::Failed(BusError(4)));
    assert_eq!(driver.transfer(), None);
}

#[test]
fn a_reply_that_answers_nothing_is_ignored() {
    let mut driver = idle();
    assert_eq!(driver.complete::<BusError>(Reply::Read(1, 2)), Outcome::Ignored);
    assert_eq!(driver.complete::<BusError>(Reply::Written), Outcome::Ignored);
    assert_eq!(driver.complete(Reply::Failed(BusError(9))), Outcome::Ignored);

    driver.version();
    assert_eq!(driver.complete::<BusError>(Reply::Written), Outcome::Ignored);
    assert_eq!(driver.transfer(), Some(Transfer::WriteRead { address: 0x36, register: 0x08 }));
    assert_eq!(driver.complete::<BusError>(Reply::Read(0, 7)), Outcome::Value(7));

    driver.write(3, 4);
    assert_eq!(driver.complete::<BusError>(Reply::Read(1, 2)), Outcome::Ignored);
    assert_eq!(driver.transfer(), Some(Transfer::WriteOne { address: 0x36, byte: 3 }));
    driver.complete::<BusError>(Reply::Written);
    assert_eq!(driver.complete::<BusError>(Reply::Read(1, 2)), Outcome::Ignored);
    assert_eq!(
        driver.transfer(),
        Some(Transfer::WriteTwo { address: 0x36, first: 0, second: 4 })
    );
}

#[test]
fn a_new_operation_replaces_an_unfinished_one() {
    let mut driver = Max17048::new();
    assert_eq!(driver.soc(), Transfer::WriteRead { address: 0x36, register: 0x04 });
    assert_eq!(driver.complete::<BusError>(Reply::Read(50, 0)), Outcome::Value(50));
    assert_eq!(driver.transfer(), None);
}
