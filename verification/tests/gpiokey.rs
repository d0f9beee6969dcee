use gpioirq::gpiokey::{signal_command, CommandLine, SIGNAL};

#[test]
fn zero_is_written_as_0() {
    assert_eq!(SIGNAL::ZERO.to_string(), "0");
}

#[test]
fn one_is_written_as_1() {
    assert_eq!(SIGNAL::ONE.to_string(), "1");
}

#[test]
fn signal_command_echoes_the_level_toward_the_output() {
    assert_eq!(
        signal_command("/sys/class/leds/power-pciusb/brightness", SIGNAL::ZERO),
        CommandLine {
            program: "echo".to_string(),
            args: vec![
                "0".to_string(),
                ">".to_string(),
                "/sys/class/leds/power-pciusb/brightness".to_string(),
            ],
        }
    );
    assert_eq!(
        signal_command("/sys/class/leds/reset-usbh1/brightness", SIGNAL::ONE),
        CommandLine {
            program: "echo".to_string(),
            args: vec![
                "1".to_string(),
                ">".to_string(),
                "/sys/class/leds/reset-usbh1/brightness".to_string(),
            ],
        }
    );
}

#[test]
fn signal_command_takes_any_target() {
    let command = signal_command("", SIGNAL::ONE);
    assert_eq!(command.program, "echo");
    assert_eq!(command.args, vec!["1".to_string(), ">".to_string(), String::new()]);
    let command = signal_command("käfig 7", SIGNAL::ZERO);
    assert_eq!(command.args, vec!["0".to_string(), ">".to_string(), "käfig 7".to_string()]);
}
