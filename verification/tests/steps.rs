use xca9548a::{
    Command, DoOnAcquired, Error, Pending, SlaveAddr, SwitchState, Xca9543a, Xca9545a, Xca9548a,
};

const DEV_ADDR: u8 = 0b111_0000;

/// A bus that nothing is ever done with, only told apart by its number.
#[derive(Debug, PartialEq)]
struct Wire(u32);

type Reply = Result<Command, Error<u8>>;
type Next = Result<Option<Command>, Error<u8>>;

fn done() -> Result<(), u8> {
    Ok(())
}

fn failed(code: u8) -> Result<(), u8> {
    Err(code)
}

fn idle(address: u8, selected: u8) -> SwitchState {
    SwitchState {
        address,
        selected,
        pending: Pending::Idle,
    }
}

fn write(byte: u8) -> Command {
    Command::Write {
        address: DEV_ADDR,
        byte,
    }
}

fn is_busy<T>(reply: &Result<T, Error<u8>>) -> bool {
    matches!(reply, Err(Error::CouldNotAcquireDevice))
}

/// Runs a transfer that is expected to select `mask` first.
fn transfer_after_select<DEV: DoOnAcquired<Wire>>(dev: &mut DEV, first: Reply, mask: u8) {
    assert_eq!(write(mask), first.unwrap());
    let next: Next = dev.completed(done());
    assert_eq!(Some(Command::Forward), next.unwrap());
    let last: Next = dev.completed(done());
    assert_eq!(None, last.unwrap());
}

/// Runs a transfer that is expected to need no select.
fn transfer_without_select<DEV: DoOnAcquired<Wire>>(dev: &mut DEV, first: Reply) {
    assert_eq!(Command::Forward, first.unwrap());
    let last: Next = dev.completed(done());
    assert_eq!(None, last.unwrap());
}

#[test]
fn new_device_is_idle_with_no_channel_selected() {
    let switch = Xca9548a::new(Wire(1), SlaveAddr::default());
    assert_eq!(idle(DEV_ADDR, 0), switch.state());
    let switch = Xca9545a::new(Wire(2), SlaveAddr::Alternative(false, true, false));
    assert_eq!(idle(0b111_0010, 0), switch.state());
    let switch = Xca9543a::new(Wire(3), SlaveAddr::Alternative(true, true, true));
    assert_eq!(idle(0b111_0111, 0), switch.state());
}

#[test]
fn destroy_without_operation_returns_the_bus() {
    let switch = Xca9548a::new(Wire(48), SlaveAddr::default());
    assert_eq!(Wire(48), switch.destroy());
    let switch = Xca9545a::new(Wire(45), SlaveAddr::default());
    assert_eq!(Wire(45), switch.destroy());
    let switch = Xca9543a::new(Wire(43), SlaveAddr::default());
    assert_eq!(Wire(43), switch.destroy());
}

#[test]
fn destroy_after_operations_returns_the_bus() {
    let mut switch = Xca9548a::new(Wire(7), SlaveAddr::default());
    let first: Reply = switch.begin_select(0x10);
    assert_eq!(write(0x10), first.unwrap());
    let next: Next = switch.completed(done());
    assert_eq!(None, next.unwrap());
    assert_eq!(Wire(7), switch.destroy());
}

#[test]
fn bus_is_lent_for_the_commands() {
    let mut switch = Xca9543a::new(Wire(5), SlaveAddr::default());
    assert_eq!(Wire(5), *switch.i2c());
    switch.i2c().0 = 6;
    assert_eq!(idle(DEV_ADDR, 0), switch.state());
    assert_eq!(Wire(6), switch.destroy());
}

#[test]
fn select_writes_the_mask_and_records_it() {
    let mut switch = Xca9548a::new(Wire(0), SlaveAddr::default());
    let first: Reply = switch.begin_select(0x01);
    assert_eq!(write(0x01), first.unwrap());
    assert_eq!(
        Pending::Select {
            mask: 0x01,
            forward: false
        },
        switch.state().pending
    );
    assert_eq!(0, switch.state().selected);
    let next: Next = switch.completed(done());
    assert_eq!(None, next.unwrap());
    assert_eq!(idle(DEV_ADDR, 0x01), switch.state());
}

#[test]
fn select_goes_to_the_alternative_address() {
    let mut switch = Xca9545a::new(Wire(0), SlaveAddr::Alternative(true, false, true));
    let first: Reply = switch.begin_select(0x0a);
    assert_eq!(
        Command::Write {
            address: 0b111_0101,
            byte: 0x0a
        },
        first.unwrap()
    );
}

#[test]
fn eight_channel_select_keeps_every_bit() {
    let mut switch = Xca9548a::new(Wire(0), SlaveAddr::default());
    let first: Reply = switch.begin_select(0b1000_0001);
    assert_eq!(write(0b1000_0001), first.unwrap());
    let next: Next = switch.completed(done());
    assert_eq!(None, next.unwrap());
    assert_eq!(0b1000_0001, switch.state().selected);
}

#[test]
fn four_channel_select_ignores_channels_out_of_range() {
    let mut switch = Xca9545a::new(Wire(0), SlaveAddr::default());
    let first: Reply = switch.begin_select(0b1000_0001);
    assert_eq!(write(0b0000_0001), first.unwrap());
    let next: Next = switch.completed(done());
    assert_eq!(None, next.unwrap());
    assert_eq!(0b0000_0001, switch.state().selected);
}

#[test]
fn two_channel_select_ignores_channels_out_of_range() {
    let mut switch = Xca9543a::new(Wire(0), SlaveAddr::default());
    let first: Reply = switch.begin_select(0b1000_0001);
    assert_eq!(write(0b0000_0001), first.unwrap());
    let next: Next = switch.completed(done());
    assert_eq!(None, next.unwrap());
    assert_eq!(0b0000_0001, switch.state().selected);
    let first: Reply = switch.begin_select(0b1111_1110);
    assert_eq!(write(0b0000_0010), first.unwrap());
}

#[test]
fn select_of_the_same_mask_writes_again() {
    let mut switch = Xca9543a::new(Wire(0), SlaveAddr::default());
    for _ in 0..2 {
        let first: Reply = switch.begin_select(0x02);
        assert_eq!(write(0x02), first.unwrap());
        let next: Next = switch.completed(done());
        assert_eq!(None, next.unwrap());
        assert_eq!(idle(DEV_ADDR, 0x02), switch.state());
    }
}

#[test]
fn select_of_no_channel_writes_zero() {
    let mut switch = Xca9548a::new(Wire(0), SlaveAddr::default());
    let first: Reply = switch.begin_select(0);
    assert_eq!(write(0), first.unwrap());
}

#[test]
fn failed_select_is_not_recorded() {
    let mut switch = Xca9548a::new(Wire(0), SlaveAddr::default());
    let first: Reply = switch.begin_select(0x04);
    assert_eq!(write(0x04), first.unwrap());
    let next: Next = switch.completed(failed(9));
    assert!(matches!(next, Err(Error::I2C(9))));
    assert_eq!(idle(DEV_ADDR, 0), switch.state());
}

#[test]
fn split_makes_one_handle_per_channel() {
    let switch = Xca9548a::new(Wire(0), SlaveAddr::default());
    let parts = switch.split();
    let masks = [
        parts.i2c0.channel_mask(),
        parts.i2c1.channel_mask(),
        parts.i2c2.channel_mask(),
        parts.i2c3.channel_mask(),
        parts.i2c4.channel_mask(),
        parts.i2c5.channel_mask(),
        parts.i2c6.channel_mask(),
        parts.i2c7.channel_mask(),
    ];
    assert_eq!([0x01, 0x02, 0x04, 0x08, 0x10, 0x20, 0x40, 0x80], masks);

    let switch = Xca9545a::new(Wire(0), SlaveAddr::default());
    let parts = switch.split();
    let masks = [
        parts.i2c0.channel_mask(),
        parts.i2c1.channel_mask(),
        parts.i2c2.channel_mask(),
        parts.i2c3.channel_mask(),
    ];
    assert_eq!([0x01, 0x02, 0x04, 0x08], masks);

    let switch = Xca9543a::new(Wire(0), SlaveAddr::default());
    let parts = switch.split();
    let masks = [parts.i2c0.channel_mask(), parts.i2c1.channel_mask()];
    assert_eq!([0x01, 0x02], masks);
}

#[test]
fn split_leaves_the_device_alone() {
    let switch = Xca9545a::new(Wire(3), SlaveAddr::default());
    let _parts = switch.split();
    let _more = switch.split();
    assert_eq!(idle(DEV_ADDR, 0), switch.state());
    assert_eq!(Wire(3), switch.destroy());
}

#[test]
fn transfers_on_three_handles_select_three_times() {
    let mut switch = Xca9548a::new(Wire(0), SlaveAddr::default());
    let parts = switch.split();

    let first = parts.i2c0.begin_transaction(&mut switch);
    transfer_after_select(&mut switch, first, 0x01);
    let first = parts.i2c1.begin_transaction(&mut switch);
    transfer_after_select(&mut switch, first, 0x02);
    let first = parts.i2c2.begin_transaction(&mut switch);
    transfer_after_select(&mut switch, first, 0x04);

    assert_eq!(idle(DEV_ADDR, 0x04), switch.state());
}

#[test]
fn transfers_on_the_same_handle_select_once() {
    let mut switch = Xca9548a::new(Wire(0), SlaveAddr::default());
    let parts = switch.split();

    let first = parts.i2c0.begin_transaction(&mut switch);
    transfer_after_select(&mut switch, first, 0x01);
    let first = parts.i2c0.begin_transaction(&mut switch);
    transfer_without_select(&mut switch, first);

    assert_eq!(idle(DEV_ADDR, 0x01), switch.state());
}

#[test]
fn going_back_to_a_handle_selects_again() {
    let mut switch = Xca9545a::new(Wire(0), SlaveAddr::default());
    let parts = switch.split();

    let first = parts.i2c0.begin_transaction(&mut switch);
    transfer_after_select(&mut switch, first, 0x01);
    let first = parts.i2c3.begin_transaction(&mut switch);
    transfer_after_select(&mut switch, first, 0x08);
    let first = parts.i2c0.begin_transaction(&mut switch);
    transfer_after_select(&mut switch, first, 0x01);
    let first = parts.i2c0.begin_transaction(&mut switch);
    transfer_without_select(&mut switch, first);
}

#[test]
fn handle_after_explicit_select_of_its_channel_does_not_select() {
    let mut switch = Xca9543a::new(Wire(0), SlaveAddr::default());
    let parts = switch.split();

    let first: Reply = switch.begin_select(0x02);
    assert_eq!(write(0x02), first.unwrap());
    let next: Next = switch.completed(done());
    assert_eq!(None, next.unwrap());

    let first = parts.i2c1.begin_transaction(&mut switch);
    transfer_without_select(&mut switch, first);
    let first = parts.i2c0.begin_transaction(&mut switch);
    transfer_after_select(&mut switch, first, 0x01);
}

#[test]
fn handle_after_explicit_select_of_more_channels_selects_its_own() {
    let mut switch = Xca9548a::new(Wire(0), SlaveAddr::default());
    let parts = switch.split();

    let first: Reply = switch.begin_select(0x03);
    assert_eq!(write(0x03), first.unwrap());
    let next: Next = switch.completed(done());
    assert_eq!(None, next.unwrap());

    let first = parts.i2c0.begin_transaction(&mut switch);
    transfer_after_select(&mut switch, first, 0x01);
}

#[test]
fn failed_select_of_a_handle_ends_the_transfer_and_is_retried() {
    let mut switch = Xca9548a::new(Wire(0), SlaveAddr::default());
    let parts = switch.split();

    let first: Reply = parts.i2c5.begin_transaction(&mut switch);
    assert_eq!(write(0x20), first.unwrap());
    let next: Next = switch.completed(failed(3));
    assert!(matches!(next, Err(Error::I2C(3))));
    assert_eq!(idle(DEV_ADDR, 0), switch.state());

    let first = parts.i2c5.begin_transaction(&mut switch);
    transfer_after_select(&mut switch, first, 0x20);
}

#[test]
fn failed_transfer_keeps_the_selected_channel() {
    let mut switch = Xca9548a::new(Wire(0), SlaveAddr::default());
    let parts = switch.split();

    let first: Reply = parts.i2c7.begin_transaction(&mut switch);
    assert_eq!(write(0x80), first.unwrap());
    let next: Next = switch.completed(done());
    assert_eq!(Some(Command::Forward), next.unwrap());
    let last: Next = switch.completed(failed(11));
    assert!(matches!(last, Err(Error::I2C(11))));
    assert_eq!(idle(DEV_ADDR, 0x80), switch.state());

    let first = parts.i2c7.begin_transaction(&mut switch);
    transfer_without_select(&mut switch, first);
}

#[test]
fn transfer_on_the_device_does_not_select() {
    let mut switch = Xca9548a::new(Wire(0), SlaveAddr::default());
    let first: Reply = switch.do_on_acquired(None);
    transfer_without_select(&mut switch, first);
    assert_eq!(idle(DEV_ADDR, 0), switch.state());

    let first: Reply = switch.begin_select(0x01);
    assert_eq!(write(0x01), first.unwrap());
    let next: Next = switch.completed(done());
    assert_eq!(None, next.unwrap());
    let first: Reply = switch.do_on_acquired(None);
    transfer_without_select(&mut switch, first);
    assert_eq!(idle(DEV_ADDR, 0x01), switch.state());
}

#[test]
fn failed_transfer_on_the_device_passes_the_error_on() {
    let mut switch = Xca9545a::new(Wire(0), SlaveAddr::default());
    let first: Reply = switch.do_on_acquired(None);
    assert_eq!(Command::Forward, first.unwrap());
    let last: Next = switch.completed(failed(200));
    assert!(matches!(last, Err(Error::I2C(200))));
    assert_eq!(idle(DEV_ADDR, 0), switch.state());
}

#[test]
fn channel_status_reads_the_control_byte() {
    let mut switch = Xca9548a::new(Wire(0), SlaveAddr::default());
    let first: Reply = switch.begin_channel_status();
    assert_eq!(Command::Read { address: DEV_ADDR }, first.unwrap());
    assert_eq!(Pending::ChannelStatus, switch.state().pending);
    let status: Result<u8, Error<u8>> = switch.received(Ok(0b0101_0101));
    assert_eq!(0b0101_0101, status.unwrap());
    assert_eq!(idle(DEV_ADDR, 0), switch.state());

    let mut switch = Xca9545a::new(Wire(0), SlaveAddr::default());
    let first: Reply = switch.begin_channel_status();
    assert_eq!(Command::Read { address: DEV_ADDR }, first.unwrap());
    let status: Result<u8, Error<u8>> = switch.received(Ok(0b0101_0101));
    assert_eq!(0b0000_0101, status.unwrap());

    let mut switch = Xca9543a::new(Wire(0), SlaveAddr::default());
    let first: Reply = switch.begin_channel_status();
    assert_eq!(Command::Read { address: DEV_ADDR }, first.unwrap());
    let status: Result<u8, Error<u8>> = switch.received(Ok(0b0101_0101));
    assert_eq!(0b0000_0001, status.unwrap());
}

#[test]
fn interrupt_status_reads_the_high_nibble() {
    let mut switch = Xca9545a::new(Wire(0), SlaveAddr::default());
    let first: Reply = switch.begin_interrupt_status();
    assert_eq!(Command::Read { address: DEV_ADDR }, first.unwrap());
    assert_eq!(Pending::InterruptStatus, switch.state().pending);
    let status: Result<u8, Error<u8>> = switch.received(Ok(0b1010_0000));
    assert_eq!(0b0000_1010, status.unwrap());
    assert_eq!(idle(DEV_ADDR, 0), switch.state());

    let mut switch = Xca9543a::new(Wire(0), SlaveAddr::Alternative(false, false, true));
    let first: Reply = switch.begin_interrupt_status();
    assert_eq!(
        Command::Read {
            address: 0b111_0001
        },
        first.unwrap()
    );
    let status: Result<u8, Error<u8>> = switch.received(Ok(0b1010_0111));
    assert_eq!(0b0000_0010, status.unwrap());
}

#[test]
fn status_after_select_on_a_device_that_echoes_the_byte() {
    let mut switch = Xca9543a::new(Wire(0), SlaveAddr::default());
    let first: Reply = switch.begin_select(0b1000_0011);
    let written = match first.unwrap() {
        Command::Write { byte, .. } => byte,
        other => panic!("expected a write, got {:?}", other),
    };
    let next: Next = switch.completed(done());
    assert_eq!(None, next.unwrap());
    let first: Reply = switch.begin_channel_status();
    assert_eq!(Command::Read { address: DEV_ADDR }, first.unwrap());
    let status: Result<u8, Error<u8>> = switch.received(Ok(written));
    assert_eq!(0b0000_0011, status.unwrap());

    let mut switch = Xca9548a::new(Wire(0), SlaveAddr::default());
    let first: Reply = switch.begin_select(0b1000_0011);
    let written = match first.unwrap() {
        Command::Write { byte, .. } => byte,
        other => panic!("expected a write, got {:?}", other),
    };
    let next: Next = switch.completed(done());
    assert_eq!(None, next.unwrap());
    let first: Reply = switch.begin_channel_status();
    assert_eq!(Command::Read { address: DEV_ADDR }, first.unwrap());
    let status: Result<u8, Error<u8>> = switch.received(Ok(written));
    assert_eq!(0b1000_0011, status.unwrap());
}

#[test]
fn failed_status_read_passes_the_error_on() {
    let mut switch = Xca9545a::new(Wire(0), SlaveAddr::default());
    let first: Reply = switch.begin_channel_status();
    assert_eq!(Command::Read { address: DEV_ADDR }, first.unwrap());
    let status: Result<u8, Error<u8>> = switch.received(Err(17));
    assert!(matches!(status, Err(Error::I2C(17))));
    assert_eq!(idle(DEV_ADDR, 0), switch.state());

    let first: Reply = switch.begin_interrupt_status();
    assert_eq!(Command::Read { address: DEV_ADDR }, first.unwrap());
    let status: Result<u8, Error<u8>> = switch.received(Err(18));
    assert!(matches!(status, Err(Error::I2C(18))));
    assert_eq!(idle(DEV_ADDR, 0), switch.state());
}

#[test]
fn status_reads_do_not_touch_the_recorded_mask() {
    let mut switch = Xca9545a::new(Wire(0), SlaveAddr::default());
    let first: Reply = switch.begin_select(0x05);
    assert_eq!(write(0x05), first.unwrap());
    let next: Next = switch.completed(done());
    assert_eq!(None, next.unwrap());
    let first: Reply = switch.begin_channel_status();
    assert!(first.is_ok());
    let status: Result<u8, Error<u8>> = switch.received(Ok(0x0f));
    assert_eq!(0x0f, status.unwrap());
    assert_eq!(idle(DEV_ADDR, 0x05), switch.state());
}

#[test]
fn operation_in_flight_refuses_every_other() {
    let mut switch = Xca9545a::new(Wire(0), SlaveAddr::default());
    let parts = switch.split();

    let first: Reply = parts.i2c1.begin_transaction(&mut switch);
    assert_eq!(write(0x02), first.unwrap());
    let held = switch.state();

    let nested: Reply = parts.i2c0.begin_transaction(&mut switch);
    assert!(is_busy(&nested));
    let nested: Reply = parts.i2c1.begin_transaction(&mut switch);
    assert!(is_busy(&nested));
    let nested: Reply = switch.begin_select(0x01);
    assert!(is_busy(&nested));
    let nested: Reply = switch.begin_channel_status();
    assert!(is_busy(&nested));
    let nested: Reply = switch.begin_interrupt_status();
    assert!(is_busy(&nested));
    let nested: Reply = switch.do_on_acquired(None);
    assert!(is_busy(&nested));
    assert_eq!(held, switch.state());

    let next: Next = switch.completed(done());
    assert_eq!(Some(Command::Forward), next.unwrap());
    let nested: Reply = parts.i2c0.begin_transaction(&mut switch);
    assert!(is_busy(&nested));
    let nested: Reply = switch.begin_select(0x01);
    assert!(is_busy(&nested));

    let last: Next = switch.completed(done());
    assert_eq!(None, last.unwrap());
    assert_eq!(idle(DEV_ADDR, 0x02), switch.state());

    let first = parts.i2c0.begin_transaction(&mut switch);
    transfer_after_select(&mut switch, first, 0x01);
}

#[test]
fn status_read_in_flight_refuses_every_other() {
    let mut switch = Xca9548a::new(Wire(0), SlaveAddr::default());
    let parts = switch.split();
    let first: Reply = switch.begin_channel_status();
    assert_eq!(Command::Read { address: DEV_ADDR }, first.unwrap());
    let nested: Reply = parts.i2c0.begin_transaction(&mut switch);
    assert!(is_busy(&nested));
    let nested: Reply = switch.begin_channel_status();
    assert!(is_busy(&nested));
    let status: Result<u8, Error<u8>> = switch.received(Ok(0xff));
    assert_eq!(0xff, status.unwrap());
    let first = parts.i2c0.begin_transaction(&mut switch);
    transfer_after_select(&mut switch, first, 0x01);
}

#[test]
fn report_without_operation_is_refused() {
    let mut switch = Xca9543a::new(Wire(0), SlaveAddr::default());
    let next: Next = switch.completed(done());
    assert!(is_busy(&next));
    let status: Result<u8, Error<u8>> = switch.received(Ok(0x33));
    assert!(is_busy(&status));
    assert_eq!(idle(DEV_ADDR, 0), switch.state());
}

#[test]
fn report_of_the_wrong_kind_is_refused() {
    let mut switch = Xca9543a::new(Wire(0), SlaveAddr::default());
    let first: Reply = switch.begin_channel_status();
    assert_eq!(Command::Read { address: DEV_ADDR }, first.unwrap());
    let held = switch.state();
    let next: Next = switch.completed(done());
    assert!(is_busy(&next));
    assert_eq!(held, switch.state());
    let status: Result<u8, Error<u8>> = switch.received(Ok(0x01));
    assert_eq!(0x01, status.unwrap());

    let first: Reply = switch.begin_select(0x01);
    assert_eq!(write(0x01), first.unwrap());
    let held = switch.state();
    let status: Result<u8, Error<u8>> = switch.received(Ok(0x01));
    assert!(is_busy(&status));
    assert_eq!(held, switch.state());
}

#[test]
fn bus_error_is_never_swallowed() {
    let mut switch = Xca9543a::new(Wire(0), SlaveAddr::default());
    let next: Next = switch.completed(failed(77));
    assert!(matches!(next, Err(Error::I2C(77))));
    let status: Result<u8, Error<u8>> = switch.received(Err(78));
    assert!(matches!(status, Err(Error::I2C(78))));
    assert_eq!(idle(DEV_ADDR, 0), switch.state());
}

#[test]
fn abandon_releases_the_device() {
    let mut switch = Xca9548a::new(Wire(0), SlaveAddr::default());
    let parts = switch.split();
    let first: Reply = parts.i2c3.begin_transaction(&mut switch);
    assert_eq!(write(0x08), first.unwrap());
    switch.abandon();
    assert_eq!(idle(DEV_ADDR, 0), switch.state());
    let first = parts.i2c3.begin_transaction(&mut switch);
    transfer_after_select(&mut switch, first, 0x08);
    switch.abandon();
    assert_eq!(idle(DEV_ADDR, 0x08), switch.state());
}

#[test]
fn state_tells_what_is_on_the_bus() {
    let mut switch = Xca9545a::new(Wire(0), SlaveAddr::default());
    assert!(switch.state().idle());
    assert_eq!(None, switch.state().on_bus());

    let first: Reply = switch.begin_select(0x03);
    assert!(!switch.state().idle());
    assert_eq!(Some(first.unwrap()), switch.state().on_bus());
    let next: Next = switch.completed(done());
    assert_eq!(next.unwrap(), switch.state().on_bus());

    let first: Reply = switch.begin_interrupt_status();
    assert_eq!(Some(first.unwrap()), switch.state().on_bus());
    let status: Result<u8, Error<u8>> = switch.received(Ok(0));
    assert_eq!(0, status.unwrap());
    assert!(switch.state().idle());

    let parts = switch.split();
    let first: Reply = parts.i2c2.begin_transaction(&mut switch);
    assert_eq!(Some(first.unwrap()), switch.state().on_bus());
    let next: Next = switch.completed(done());
    assert_eq!(Some(Command::Forward), next.unwrap());
    assert_eq!(Some(Command::Forward), switch.state().on_bus());
}

#[test]
fn handles_can_be_made_without_a_device() {
    let parts = xca9548a::Parts::<Xca9548a<Wire>, Wire>::new();
    assert_eq!(0x80, parts.i2c7.channel_mask());
    let parts = xca9548a::Parts4::<Xca9545a<Wire>, Wire>::new();
    assert_eq!(0x08, parts.i2c3.channel_mask());
    let parts = xca9548a::Parts2::<Xca9543a<Wire>, Wire>::new();
    assert_eq!(0x02, parts.i2c1.channel_mask());
}

/// The commands that the transfers through the handles `order` put on the
/// bus, every one of them succeeding.
fn commands_of(order: &[usize]) -> Vec<Command> {
    let mut switch = Xca9545a::new(Wire(0), SlaveAddr::default());
    let parts = switch.split();
    let handles = [&parts.i2c0, &parts.i2c1, &parts.i2c2, &parts.i2c3];
    let mut commands = Vec::new();
    for &handle in order {
        let first: Reply = handles[handle].begin_transaction(&mut switch);
        let mut command = Some(first.unwrap());
        while let Some(current) = command {
            commands.push(current);
            let next: Next = switch.completed(done());
            command = next.unwrap();
        }
        assert!(switch.state().idle());
    }
    commands
}

#[test]
fn any_run_of_transfers_selects_where_the_handle_changes() {
    for code in 0..256usize {
        let order = [code & 3, (code >> 2) & 3, (code >> 4) & 3, (code >> 6) & 3];
        let mut expected = Vec::new();
        let mut selected = 0u8;
        for &handle in &order {
            let mask = 1u8 << handle;
            if mask != selected {
                expected.push(write(mask));
                selected = mask;
            }
            expected.push(Command::Forward);
        }
        assert_eq!(expected, commands_of(&order));
    }
}

#[test]
fn three_handles_in_a_row_put_six_commands_on_the_bus() {
    assert_eq!(
        vec![
            write(0x01),
            Command::Forward,
            write(0x02),
            Command::Forward,
            write(0x04),
            Command::Forward
        ],
        commands_of(&[0, 1, 2])
    );
    assert_eq!(
        vec![write(0x01), Command::Forward, Command::Forward],
        commands_of(&[0, 0])
    );
}
