use display_interface::{DataFormat, DisplayError, WriteOnlyDataCommand};
use rm68120::{Error, Orientation, Rm68120, Rm68120Builder, Transaction, Window};

/// A transport that records what it is asked to send, and fails from its
/// `budget`-th transaction on when it has a budget.
struct Spy {
    seen: Vec<Transaction>,
    budget: Option<usize>,
}

impl Spy {
    fn new() -> Spy {
        Spy { seen: Vec::new(), budget: None }
    }

    fn failing_after(budget: usize) -> Spy {
        Spy { seen: Vec::new(), budget: Some(budget) }
    }

    fn words(format: DataFormat<'_>) -> Result<Vec<u16>, DisplayError> {
        match format {
            DataFormat::U16BEIter(words) => Ok(words.collect()),
            _ => Err(DisplayError::DataFormatNotImplemented),
        }
    }

    fn spend(&mut self) -> Result<(), DisplayError> {
        match self.budget {
            Some(0) => Err(DisplayError::BusWriteError),
            Some(left) => {
                self.budget = Some(left - 1);
                Ok(())
            }
            None => Ok(()),
        }
    }
}

impl WriteOnlyDataCommand for Spy {
    fn send_commands(&mut self, cmd: DataFormat<'_>) -> Result<(), DisplayError> {
        self.spend()?;
        for code in Spy::words(cmd)? {
            self.seen.push(Transaction::Command(code));
        }
        Ok(())
    }

    fn send_data(&mut self, buf: DataFormat<'_>) -> Result<(), DisplayError> {
        self.spend()?;
        let words = Spy::words(buf)?;
        self.seen.push(Transaction::Data(words));
        Ok(())
    }
}

/// Sends the transactions in their order and stops at the first fault.
fn carry(spy: &mut Spy, plan: &[Transaction]) -> Result<(), DisplayError> {
    for transaction in plan {
        match transaction {
            Transaction::Command(code) => {
                spy.send_commands(DataFormat::U16BEIter(&mut core::iter::once(*code)))?
            }
            Transaction::Data(words) => {
                spy.send_data(DataFormat::U16BEIter(&mut words.iter().copied()))?
            }
        }
    }
    Ok(())
}

type Driver = Rm68120<Spy, ()>;

fn driver(width: usize, height: usize, orientation: Orientation) -> Driver {
    Rm68120::new(Spy::new(), (), width, height, orientation)
}

fn seen(driver: &mut Driver) -> Vec<Transaction> {
    core::mem::take(&mut driver.interface().seen)
}

fn enable(driver: &mut Driver) -> Result<(), Error> {
    let plan = driver.enable_frames();
    let sent = carry(driver.interface(), &plan);
    driver.enable(sent)
}

fn disable(driver: &mut Driver) -> Result<(), Error> {
    let plan = driver.disable_frames();
    let sent = carry(driver.interface(), &plan);
    driver.disable(sent)
}

fn set_orientation(driver: &mut Driver, orientation: Orientation) -> Result<(), Error> {
    let plan = driver.orientation_frames(orientation);
    let sent = carry(driver.interface(), &plan);
    driver.set_orientation(orientation, sent)
}

fn set_window(driver: &mut Driver, cs: u16, ce: u16, rs: u16, re: u16) -> Result<(), Error> {
    let plan = driver.window_frames(cs, ce, rs, re)?;
    let sent = carry(driver.interface(), &plan);
    driver.set_window(cs, ce, rs, re, sent)
}

fn write_pixels(driver: &mut Driver, pixels: Vec<u16>) -> Result<(), Error> {
    let plan = driver.pixel_frames(pixels)?;
    let sent = carry(driver.interface(), &plan);
    driver.write_pixels(sent)
}

fn command(code: u16) -> Transaction {
    Transaction::Command(code)
}

fn data(words: &[u16]) -> Transaction {
    Transaction::Data(words.to_vec())
}

#[test]
fn construction_round_trip() {
    let mut d = driver(800, 480, Orientation::Landscape);
    assert_eq!(d.width(), 800);
    assert_eq!(d.height(), 480);
    assert_eq!(d.orientation(), Orientation::Landscape);
    assert_eq!(d.window(), None);
    assert!(seen(&mut d).is_empty());
}

#[test]
fn construction_keeps_any_size_and_orientation() {
    let d = driver(0, usize::MAX, Orientation::PortraitFlipped);
    assert_eq!(d.width(), 0);
    assert_eq!(d.height(), usize::MAX);
    assert_eq!(d.orientation(), Orientation::PortraitFlipped);
}

#[test]
fn construction_hands_the_handles_over() {
    let mut d = Rm68120::new(Spy::failing_after(3), 17u32, 800, 480, Orientation::Landscape);
    assert_eq!(d.interface().budget, Some(3));
    assert_eq!(*d.delay(), 17);
    *d.delay() = 18;
    assert_eq!(*d.delay(), 18);
    assert_eq!(d.width(), 800);
}

#[test]
fn enable_sends_display_on() {
    let mut d = driver(800, 480, Orientation::Landscape);
    assert!(enable(&mut d).is_ok());
    assert_eq!(seen(&mut d), vec![command(0x2900)]);
}

#[test]
fn disable_sends_display_off() {
    let mut d = driver(800, 480, Orientation::Landscape);
    assert!(disable(&mut d).is_ok());
    assert_eq!(seen(&mut d), vec![command(0x2800)]);
}

#[test]
fn enable_passes_the_fault_on() {
    let mut d = Rm68120::new(Spy::failing_after(0), (), 800, 480, Orientation::Landscape);
    let result = enable(&mut d);
    assert!(matches!(result, Err(Error::TransportError(DisplayError::BusWriteError))));
    assert!(seen(&mut d).is_empty());
}

#[test]
fn disable_passes_the_fault_on() {
    let mut d = driver(800, 480, Orientation::Landscape);
    let result = d.disable(Err(DisplayError::DCError));
    assert!(matches!(result, Err(Error::TransportError(DisplayError::DCError))));
}

#[test]
fn power_leaves_the_window_latched() {
    let mut d = driver(800, 480, Orientation::Landscape);
    set_window(&mut d, 0, 9, 0, 9).unwrap();
    assert!(d.enable(Err(DisplayError::BusWriteError)).is_err());
    assert!(d.disable(Ok(())).is_ok());
    assert_eq!(d.window(), Some(Window::new(0, 9, 0, 9)));
}

#[test]
fn set_window_records_the_exact_bounds() {
    let mut d = driver(800, 480, Orientation::Landscape);
    assert!(set_window(&mut d, 3, 799, 5, 479).is_ok());
    assert_eq!(d.window(), Some(Window::new(3, 799, 5, 479)));
}

#[test]
fn set_window_accepts_every_corner() {
    for (cs, ce, rs, re) in [(0, 0, 0, 0), (799, 799, 479, 479), (0, 799, 0, 479), (0, 799, 479, 479)]
    {
        let mut d = driver(800, 480, Orientation::LandscapeFlipped);
        assert!(set_window(&mut d, cs, ce, rs, re).is_ok());
        assert_eq!(d.window(), Some(Window::new(cs, ce, rs, re)));
    }
}

#[test]
fn set_window_sends_columns_before_pages() {
    let mut d = driver(800, 480, Orientation::Landscape);
    set_window(&mut d, 0, 99, 0, 49).unwrap();
    assert_eq!(
        seen(&mut d),
        vec![command(0x2A00), data(&[0, 49]), command(0x2B00), data(&[0, 99])]
    );
}

#[test]
fn set_window_in_portrait_sends_the_bounds_as_they_are() {
    let mut d = driver(480, 800, Orientation::Portrait);
    set_window(&mut d, 1, 2, 3, 4).unwrap();
    assert_eq!(seen(&mut d), vec![command(0x2A00), data(&[1, 2]), command(0x2B00), data(&[3, 4])]);
}

#[test]
fn set_window_in_flipped_orientations_mirrors_the_bounds() {
    let mut d = driver(480, 800, Orientation::PortraitFlipped);
    set_window(&mut d, 0, 9, 0, 19).unwrap();
    assert_eq!(
        seen(&mut d),
        vec![command(0x2A00), data(&[470, 479]), command(0x2B00), data(&[780, 799])]
    );
    let mut d = driver(800, 480, Orientation::LandscapeFlipped);
    set_window(&mut d, 10, 19, 100, 199).unwrap();
    assert_eq!(
        seen(&mut d),
        vec![command(0x2A00), data(&[280, 379]), command(0x2B00), data(&[780, 789])]
    );
}

#[test]
fn set_window_refuses_inverted_and_outside_bounds() {
    for (cs, ce, rs, re) in
        [(5, 4, 0, 0), (0, 0, 5, 4), (0, 800, 0, 0), (0, 0, 0, 480), (800, 800, 0, 0), (900, 100, 0, 0)]
    {
        let mut d = driver(800, 480, Orientation::Landscape);
        let result = set_window(&mut d, cs, ce, rs, re);
        assert!(matches!(result, Err(Error::InvalidGeometry)));
        assert!(seen(&mut d).is_empty());
        assert_eq!(d.window(), None);
    }
}

#[test]
fn refused_window_has_no_frames() {
    let d = driver(800, 480, Orientation::Landscape);
    assert!(matches!(d.window_frames(0, 800, 0, 0), Err(Error::InvalidGeometry)));
}

#[test]
fn refused_window_leaves_the_latched_one() {
    let mut d = driver(800, 480, Orientation::Landscape);
    set_window(&mut d, 0, 9, 0, 9).unwrap();
    write_pixels(&mut d, vec![1]).unwrap();
    seen(&mut d);
    assert!(matches!(set_window(&mut d, 9, 0, 0, 9), Err(Error::InvalidGeometry)));
    assert!(matches!(d.set_window(9, 0, 0, 9, Ok(())), Err(Error::InvalidGeometry)));
    assert!(matches!(
        d.set_window(9, 0, 0, 9, Err(DisplayError::BusWriteError)),
        Err(Error::InvalidGeometry)
    ));
    assert_eq!(d.window(), Some(Window::new(0, 9, 0, 9)));
    write_pixels(&mut d, vec![2]).unwrap();
    assert_eq!(seen(&mut d), vec![command(0x3C00), data(&[2])]);
}

#[test]
fn window_on_a_panel_beyond_sixteen_bits_is_latched() {
    let mut d = driver(70000, 480, Orientation::Portrait);
    assert!(set_window(&mut d, 0, 99, 0, 49).is_ok());
    assert_eq!(d.window(), Some(Window::new(0, 99, 0, 49)));
    assert_eq!(
        seen(&mut d),
        vec![command(0x2A00), data(&[0, 99]), command(0x2B00), data(&[0, 49])]
    );
    assert!(write_pixels(&mut d, vec![7; 5000]).is_ok());
    let mut d = driver(70000, 480, Orientation::Landscape);
    assert!(set_window(&mut d, 0, 0xFFFF, 0, 479).is_ok());
    assert_eq!(
        seen(&mut d),
        vec![command(0x2A00), data(&[0, 479]), command(0x2B00), data(&[0, 0xFFFF])]
    );
}

#[test]
fn flipped_window_whose_mirrored_start_does_not_fit_is_refused() {
    let mut d = driver(70000, 480, Orientation::PortraitFlipped);
    assert!(matches!(set_window(&mut d, 0, 99, 0, 49), Err(Error::InvalidGeometry)));
    assert!(seen(&mut d).is_empty());
    assert_eq!(d.window(), None);
    assert!(set_window(&mut d, 5000, 5099, 0, 49).is_ok());
    assert_eq!(d.window(), Some(Window::new(5000, 5099, 0, 49)));
    assert_eq!(
        seen(&mut d),
        vec![command(0x2A00), data(&[64900, 64999]), command(0x2B00), data(&[430, 479])]
    );
}

#[test]
fn flipped_panel_of_sixteen_bits_takes_every_window() {
    let mut d = driver(0x1_0000, 0x1_0000, Orientation::PortraitFlipped);
    assert!(set_window(&mut d, 0, 0xFFFF, 0, 0xFFFF).is_ok());
    assert!(set_window(&mut d, 0, 0, 0, 0).is_ok());
    assert_eq!(
        seen(&mut d).split_off(4),
        vec![command(0x2A00), data(&[0xFFFF, 0xFFFF]), command(0x2B00), data(&[0xFFFF, 0xFFFF])]
    );
}

#[test]
fn failed_window_transfer_leaves_no_window() {
    for budget in 0..4 {
        let mut d = Rm68120::new(Spy::new(), (), 800, 480, Orientation::Landscape);
        set_window(&mut d, 0, 9, 0, 9).unwrap();
        d.interface().budget = Some(budget);
        let result = set_window(&mut d, 1, 2, 3, 4);
        assert!(matches!(result, Err(Error::TransportError(DisplayError::BusWriteError))));
        assert_eq!(d.window(), None);
        assert!(matches!(d.pixel_frames(vec![1]), Err(Error::NoActiveWindow)));
    }
}

#[test]
fn write_before_any_window_fails() {
    let mut d = driver(800, 480, Orientation::Landscape);
    let result = write_pixels(&mut d, vec![1, 2, 3]);
    assert!(matches!(result, Err(Error::NoActiveWindow)));
    assert!(seen(&mut d).is_empty());
    assert!(matches!(d.write_pixels(Ok(())), Err(Error::NoActiveWindow)));
    assert_eq!(d.window(), None);
}

#[test]
fn write_after_power_on_alone_fails() {
    let mut d = driver(800, 480, Orientation::Landscape);
    enable(&mut d).unwrap();
    assert!(matches!(write_pixels(&mut d, vec![1]), Err(Error::NoActiveWindow)));
}

#[test]
fn orientation_change_invalidates_the_window() {
    let mut d = driver(800, 480, Orientation::Landscape);
    set_window(&mut d, 0, 99, 0, 49).unwrap();
    set_orientation(&mut d, Orientation::LandscapeFlipped).unwrap();
    assert_eq!(d.window(), None);
    assert!(matches!(write_pixels(&mut d, vec![0; 5000]), Err(Error::NoActiveWindow)));
}

#[test]
fn orientation_change_to_the_same_orientation_invalidates_too() {
    let mut d = driver(800, 480, Orientation::Landscape);
    set_window(&mut d, 0, 99, 0, 49).unwrap();
    set_orientation(&mut d, Orientation::Landscape).unwrap();
    assert!(matches!(write_pixels(&mut d, vec![0; 5000]), Err(Error::NoActiveWindow)));
}

#[test]
fn failed_orientation_change_invalidates_and_keeps_the_orientation() {
    let mut d = driver(800, 480, Orientation::Landscape);
    set_window(&mut d, 0, 99, 0, 49).unwrap();
    d.interface().budget = Some(1);
    let result = set_orientation(&mut d, Orientation::Portrait);
    assert!(matches!(result, Err(Error::TransportError(DisplayError::BusWriteError))));
    assert_eq!(d.orientation(), Orientation::Landscape);
    assert_eq!(d.width(), 800);
    assert_eq!(d.height(), 480);
    assert_eq!(d.window(), None);
    assert!(matches!(d.pixel_frames(vec![1]), Err(Error::NoActiveWindow)));
}

#[test]
fn orientation_change_sends_the_address_mode() {
    for (orientation, word) in [
        (Orientation::Portrait, 0x0000),
        (Orientation::PortraitFlipped, 0x00C0),
        (Orientation::Landscape, 0x0020),
        (Orientation::LandscapeFlipped, 0x00E0),
    ] {
        let mut d = driver(800, 480, Orientation::Landscape);
        set_orientation(&mut d, orientation).unwrap();
        assert_eq!(seen(&mut d), vec![command(0x3600), data(&[word])]);
        assert_eq!(d.orientation(), orientation);
    }
}

#[test]
fn orientation_change_exchanges_width_and_height_between_the_classes() {
    let mut d = driver(800, 480, Orientation::Landscape);
    set_orientation(&mut d, Orientation::LandscapeFlipped).unwrap();
    assert_eq!((d.width(), d.height()), (800, 480));
    set_orientation(&mut d, Orientation::Portrait).unwrap();
    assert_eq!((d.width(), d.height()), (480, 800));
    set_orientation(&mut d, Orientation::PortraitFlipped).unwrap();
    assert_eq!((d.width(), d.height()), (480, 800));
    set_orientation(&mut d, Orientation::Landscape).unwrap();
    assert_eq!((d.width(), d.height()), (800, 480));
}

#[test]
fn window_is_checked_against_the_current_orientation() {
    let mut d = driver(800, 480, Orientation::Landscape);
    set_orientation(&mut d, Orientation::Portrait).unwrap();
    seen(&mut d);
    assert!(matches!(set_window(&mut d, 0, 799, 0, 0), Err(Error::InvalidGeometry)));
    assert!(set_window(&mut d, 0, 479, 0, 799).is_ok());
    assert_eq!(
        seen(&mut d),
        vec![command(0x2A00), data(&[0, 479]), command(0x2B00), data(&[0, 799])]
    );
}

#[test]
fn full_window_write_is_one_command_and_one_data_transaction() {
    let mut d = driver(800, 480, Orientation::Landscape);
    set_window(&mut d, 0, 99, 0, 49).unwrap();
    seen(&mut d);
    let pixels: Vec<u16> = (0..5000).map(|i| i as u16).collect();
    assert_eq!(d.window().unwrap().pixels(), 5000);
    write_pixels(&mut d, pixels.clone()).unwrap();
    let sent = seen(&mut d);
    assert_eq!(sent.len(), 2);
    assert_eq!(sent[0], command(0x2C00));
    match &sent[1] {
        Transaction::Data(words) => {
            assert_eq!(words.len(), 5000);
            assert_eq!(words, &pixels);
        }
        other => panic!("expected data, got {:?}", other),
    }
}

#[test]
fn second_write_continues_the_first() {
    let mut d = driver(800, 480, Orientation::Landscape);
    set_window(&mut d, 0, 99, 0, 49).unwrap();
    seen(&mut d);
    write_pixels(&mut d, vec![1, 2]).unwrap();
    write_pixels(&mut d, vec![3, 4]).unwrap();
    write_pixels(&mut d, vec![5]).unwrap();
    assert_eq!(
        seen(&mut d),
        vec![
            command(0x2C00),
            data(&[1, 2]),
            command(0x3C00),
            data(&[3, 4]),
            command(0x3C00),
            data(&[5]),
        ]
    );
    assert_eq!(d.window(), Some(Window::new(0, 99, 0, 49)));
}

#[test]
fn a_new_window_starts_a_new_write() {
    let mut d = driver(800, 480, Orientation::Landscape);
    set_window(&mut d, 0, 99, 0, 49).unwrap();
    write_pixels(&mut d, vec![1]).unwrap();
    set_window(&mut d, 0, 99, 0, 49).unwrap();
    seen(&mut d);
    write_pixels(&mut d, vec![2]).unwrap();
    assert_eq!(seen(&mut d), vec![command(0x2C00), data(&[2])]);
}

#[test]
fn power_between_writes_does_not_restart_them() {
    let mut d = driver(800, 480, Orientation::Landscape);
    set_window(&mut d, 0, 99, 0, 49).unwrap();
    write_pixels(&mut d, vec![1]).unwrap();
    enable(&mut d).unwrap();
    seen(&mut d);
    write_pixels(&mut d, vec![2]).unwrap();
    assert_eq!(seen(&mut d), vec![command(0x3C00), data(&[2])]);
}

#[test]
fn write_is_neither_cut_nor_padded() {
    let mut d = driver(800, 480, Orientation::Landscape);
    set_window(&mut d, 0, 1, 0, 1).unwrap();
    seen(&mut d);
    write_pixels(&mut d, vec![9; 3]).unwrap();
    write_pixels(&mut d, vec![8; 7]).unwrap();
    assert_eq!(
        seen(&mut d),
        vec![command(0x2C00), data(&[9; 3]), command(0x3C00), data(&[8; 7])]
    );
}

#[test]
fn write_of_no_pixels_is_the_command_alone() {
    let mut d = driver(800, 480, Orientation::Landscape);
    set_window(&mut d, 0, 1, 0, 1).unwrap();
    seen(&mut d);
    write_pixels(&mut d, Vec::new()).unwrap();
    assert_eq!(seen(&mut d), vec![command(0x2C00)]);
}

#[test]
fn failed_write_leaves_no_window() {
    for budget in 0..2 {
        let mut d = driver(800, 480, Orientation::Landscape);
        set_window(&mut d, 0, 99, 0, 49).unwrap();
        d.interface().budget = Some(budget);
        let result = write_pixels(&mut d, vec![1, 2, 3]);
        assert!(matches!(result, Err(Error::TransportError(DisplayError::BusWriteError))));
        assert_eq!(d.window(), None);
        d.interface().budget = None;
        assert!(matches!(write_pixels(&mut d, vec![1]), Err(Error::NoActiveWindow)));
    }
}

#[test]
fn faults_are_passed_on_as_they_came() {
    let mut d = driver(800, 480, Orientation::Landscape);
    assert!(matches!(
        d.set_orientation(Orientation::Portrait, Err(DisplayError::DCError)),
        Err(Error::TransportError(DisplayError::DCError))
    ));
    assert!(matches!(
        d.set_window(0, 1, 0, 1, Err(DisplayError::CSError)),
        Err(Error::TransportError(DisplayError::CSError))
    ));
    d.set_window(0, 1, 0, 1, Ok(())).unwrap();
    assert!(matches!(
        d.write_pixels(Err(DisplayError::OutOfBoundsError)),
        Err(Error::TransportError(DisplayError::OutOfBoundsError))
    ));
}

#[test]
fn builder_starts_at_the_defaults() {
    let d = Rm68120Builder::new().build(Spy::new(), ());
    assert_eq!(d.width(), 800);
    assert_eq!(d.height(), 480);
    assert_eq!(d.orientation(), Orientation::Landscape);
    assert_eq!(d.window(), None);
}

#[test]
fn builder_takes_dimensions_and_orientation() {
    let mut builder = Rm68120Builder::new();
    builder.with_dimensions(480, 800).with_orientation(Orientation::PortraitFlipped);
    let d = builder.build(Spy::new(), ());
    assert_eq!(d.width(), 480);
    assert_eq!(d.height(), 800);
    assert_eq!(d.orientation(), Orientation::PortraitFlipped);
}

#[test]
fn builder_settings_are_independent() {
    let mut builder = Rm68120Builder::new();
    builder.with_orientation(Orientation::Portrait);
    let d = builder.build(Spy::new(), ());
    assert_eq!((d.width(), d.height()), (800, 480));
    assert_eq!(d.orientation(), Orientation::Portrait);
    builder.with_dimensions(320, 240);
    let d = builder.build(Spy::new(), ());
    assert_eq!((d.width(), d.height()), (320, 240));
    assert_eq!(d.orientation(), Orientation::Portrait);
}

#[test]
fn builder_sends_nothing() {
    let mut d = Rm68120Builder::new().build(Spy::new(), ());
    assert!(seen(&mut d).is_empty());
}
