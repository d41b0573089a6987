use kernel_boot::access::Access;
use kernel_boot::port::PortOp;
use kernel_boot::serial::SerialPort;

/// A register file that stands in for the machine: it keeps what each port
/// holds and the order in which the ports were written.
struct RegisterFile {
    cells: Vec<u8>,
    written: Vec<(u16, u8)>,
}

fn register_file() -> RegisterFile {
    RegisterFile { cells: vec![0; 0x1_0000], written: Vec::new() }
}

fn perform(file: &mut RegisterFile, op: &PortOp<u8>) -> Option<u8> {
    match op {
        PortOp::Read { port } => Some(file.cells[usize::from(*port)]),
        PortOp::Write { port, value } => {
            file.cells[usize::from(*port)] = *value;
            file.written.push((*port, *value));
            None
        }
    }
}

#[test]
fn init_writes_the_eight_registers_in_order() {
    let serial = SerialPort::new(0x3F8);
    let mut file = register_file();
    for op in serial.init().iter() {
        assert_eq!(perform(&mut file, op), None);
    }
    assert_eq!(
        file.written,
        vec![
            (0x3F9, 0x00),
            (0x3FB, 0x80),
            (0x3F8, 0x03),
            (0x3F9, 0x00),
            (0x3FB, 0x03),
            (0x3FA, 0xC7),
            (0x3FC, 0x0B),
            (0x3F9, 0x01),
        ]
    );
}

#[test]
fn init_values_are_the_documented_literals() {
    let serial = SerialPort::new(0x2F8);
    let values: Vec<u8> = serial
        .init()
        .iter()
        .map(|op| match op {
            PortOp::Write { value, .. } => *value,
            PortOp::Read { .. } => panic!("bring-up never reads"),
        })
        .collect();
    assert_eq!(values, vec![0x00, 0x80, 0x03, 0x00, 0x03, 0xC7, 0x0B, 0x01]);
}

#[test]
fn init_leaves_the_registers_configured() {
    let serial = SerialPort::new(0x3F8);
    let mut file = register_file();
    for op in serial.init().iter() {
        perform(&mut file, op);
    }
    assert_eq!(file.cells[0x3F8], 0x03);
    assert_eq!(file.cells[0x3F9], 0x01);
    assert_eq!(file.cells[0x3FA], 0xC7);
    assert_eq!(file.cells[0x3FB], 0x03);
    assert_eq!(file.cells[0x3FC], 0x0B);
    assert_eq!(file.cells[0x3FD], 0x00);
    assert_eq!(file.cells[0x3FE], 0x00);
}

#[test]
fn init_follows_the_base_address() {
    let serial = SerialPort::new(0x2F8);
    assert_eq!(
        serial.init(),
        vec![
            PortOp::Write { port: 0x2F9, value: 0x00 },
            PortOp::Write { port: 0x2FB, value: 0x80 },
            PortOp::Write { port: 0x2F8, value: 0x03 },
            PortOp::Write { port: 0x2F9, value: 0x00 },
            PortOp::Write { port: 0x2FB, value: 0x03 },
            PortOp::Write { port: 0x2FA, value: 0xC7 },
            PortOp::Write { port: 0x2FC, value: 0x0B },
            PortOp::Write { port: 0x2F9, value: 0x01 },
        ]
    );
}

#[test]
fn init_is_the_same_every_time() {
    let serial = SerialPort::new(0x3F8);
    assert_eq!(serial.init(), serial.init());
}

#[test]
fn registers_lie_at_consecutive_offsets() {
    let serial = SerialPort::new(0x3F8);
    assert_eq!(serial.data.read(), PortOp::Read { port: 0x3F8 });
    assert_eq!(serial.int_en.write(0), PortOp::Write { port: 0x3F9, value: 0 });
    assert_eq!(serial.fifo_ctrl.write(0), PortOp::Write { port: 0x3FA, value: 0 });
    assert_eq!(serial.line_ctrl.write(0), PortOp::Write { port: 0x3FB, value: 0 });
    assert_eq!(serial.modem_ctrl.write(0), PortOp::Write { port: 0x3FC, value: 0 });
    assert_eq!(serial.line_status.read(), PortOp::Read { port: 0x3FD });
    assert_eq!(serial.modem_status.read(), PortOp::Read { port: 0x3FE });
}

#[test]
fn registers_carry_the_narrowest_capability() {
    let serial = SerialPort::new(0x3F8);
    assert_eq!(serial.data.capability(), Access::ReadWrite);
    assert_eq!(serial.int_en.capability(), Access::WriteOnly);
    assert_eq!(serial.fifo_ctrl.capability(), Access::WriteOnly);
    assert_eq!(serial.line_ctrl.capability(), Access::WriteOnly);
    assert_eq!(serial.modem_ctrl.capability(), Access::WriteOnly);
    assert_eq!(serial.line_status.capability(), Access::ReadWrite);
    assert_eq!(serial.modem_status.capability(), Access::ReadWrite);
}

#[test]
fn lowest_and_highest_base_fit() {
    let low = SerialPort::new(0);
    assert_eq!(low.modem_status.read(), PortOp::Read { port: 6 });
    let high = SerialPort::new(0xFFF9);
    assert_eq!(high.data.read(), PortOp::Read { port: 0xFFF9 });
    assert_eq!(high.modem_status.read(), PortOp::Read { port: 0xFFFF });
    assert_eq!(high.init()[6], PortOp::Write { port: 0xFFFD, value: 0x0B });
}

#[test]
fn transmit_is_one_write_to_the_data_register() {
    let serial = SerialPort::new(0x3F8);
    assert_eq!(serial.transmit(b'h'), PortOp::Write { port: 0x3F8, value: 0x68 });
    assert_eq!(serial.transmit(0), PortOp::Write { port: 0x3F8, value: 0 });
    let mut file = register_file();
    perform(&mut file, &serial.transmit(b'A'));
    perform(&mut file, &serial.transmit(b'B'));
    assert_eq!(file.written, vec![(0x3F8, b'A'), (0x3F8, b'B')]);
}
