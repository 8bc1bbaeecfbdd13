use atsamx7x_hal::serial::{
    flush_uart, flush_usart, write_uart, write_usart, Error, NbError, Serial, UartRegisterBlock,
    UsartRegisterBlock, TXEMPTY_MASK,
};

#[test]
fn uart_write_block_flush_scenario() {
    let mut regs = UartRegisterBlock { uart_sr: TXEMPTY_MASK, uart_thr: 0 };
    assert_eq!(write_uart(&mut regs, 0x41), Ok(()));
    assert_eq!(regs.uart_thr, 0x41);
    regs.uart_sr = 0;
    assert_eq!(write_uart(&mut regs, 0x42), Err(NbError::WouldBlock));
    assert_eq!(regs.uart_thr, 0x41);
    regs.uart_sr = TXEMPTY_MASK;
    assert_eq!(flush_uart(&regs), Ok(()));
}

#[test]
fn usart_write_block_flush_scenario() {
    let mut regs = UsartRegisterBlock { us_csr: TXEMPTY_MASK, us_thr: 0 };
    assert_eq!(write_usart(&mut regs, 0x41), Ok(()));
    assert_eq!(regs.us_thr, 0x41);
    regs.us_csr = 0;
    assert_eq!(write_usart(&mut regs, 0x42), Err(NbError::WouldBlock));
    assert_eq!(regs.us_thr, 0x41);
    regs.us_csr = TXEMPTY_MASK;
    assert_eq!(flush_usart(&regs), Ok(()));
}

#[test]
fn write_with_flag_clear_touches_nothing() {
    let before = UartRegisterBlock { uart_sr: !TXEMPTY_MASK, uart_thr: 0x17 };
    let mut regs = before;
    assert_eq!(write_uart(&mut regs, 0xFF), Err(NbError::WouldBlock));
    assert_eq!(regs, before);

    let before = UsartRegisterBlock { us_csr: !TXEMPTY_MASK, us_thr: 0x1FF };
    let mut regs = before;
    assert_eq!(write_usart(&mut regs, 0x00), Err(NbError::WouldBlock));
    assert_eq!(regs, before);
}

#[test]
fn write_with_flag_set_changes_holding_register_only() {
    let mut regs = UartRegisterBlock { uart_sr: 0xFFFF_FFFF, uart_thr: 0x17 };
    assert_eq!(write_uart(&mut regs, 0x80), Ok(()));
    assert_eq!(regs, UartRegisterBlock { uart_sr: 0xFFFF_FFFF, uart_thr: 0x80 });

    let mut regs = UsartRegisterBlock { us_csr: TXEMPTY_MASK | 1, us_thr: 0x1FF };
    assert_eq!(write_usart(&mut regs, 0xFE), Ok(()));
    assert_eq!(regs, UsartRegisterBlock { us_csr: TXEMPTY_MASK | 1, us_thr: 0xFE });
}

#[test]
fn repeated_blocked_writes_change_nothing() {
    let before = UartRegisterBlock { uart_sr: 0, uart_thr: 0x41 };
    let mut regs = before;
    for _ in 0..5 {
        assert_eq!(write_uart(&mut regs, 0x42), Err(NbError::WouldBlock));
        assert_eq!(regs, before);
    }

    let before = UsartRegisterBlock { us_csr: 0, us_thr: 0x41 };
    let mut regs = before;
    for _ in 0..5 {
        assert_eq!(write_usart(&mut regs, 0x42), Err(NbError::WouldBlock));
        assert_eq!(regs, before);
    }
}

#[test]
fn flush_blocks_while_flag_clear() {
    let regs = UartRegisterBlock { uart_sr: 0, uart_thr: 0x41 };
    assert_eq!(flush_uart(&regs), Err(NbError::WouldBlock));
    let regs = UsartRegisterBlock { us_csr: !TXEMPTY_MASK, us_thr: 0x41 };
    assert_eq!(flush_usart(&regs), Err(NbError::WouldBlock));
}

#[test]
fn serial_uart_write_and_flush() {
    let mut serial = Serial::new(UartRegisterBlock { uart_sr: TXEMPTY_MASK, uart_thr: 0 });
    assert_eq!(serial.write(b'A'), Ok(()));
    assert_eq!(serial.flush(), Ok(()));
    let mut regs = serial.free();
    assert_eq!(regs.uart_thr, 0x41);
    regs.uart_sr = 0;
    let mut serial = Serial::new(regs);
    assert_eq!(serial.write(b'B'), Err(NbError::WouldBlock));
    assert_eq!(serial.flush(), Err(NbError::WouldBlock));
    assert_eq!(serial.free(), UartRegisterBlock { uart_sr: 0, uart_thr: 0x41 });
}

#[test]
fn serial_usart_write_and_flush() {
    let mut serial = Serial::new(UsartRegisterBlock { us_csr: TXEMPTY_MASK, us_thr: 0 });
    assert_eq!(serial.write(0x7E), Ok(()));
    assert_eq!(serial.flush(), Ok(()));
    let mut regs = serial.free();
    assert_eq!(regs.us_thr, 0x7E);
    regs.us_csr = 0;
    let mut serial = Serial::new(regs);
    assert_eq!(serial.write(0x7F), Err(NbError::WouldBlock));
    assert_eq!(serial.flush(), Err(NbError::WouldBlock));
    assert_eq!(serial.free(), UsartRegisterBlock { us_csr: 0, us_thr: 0x7E });
}

#[test]
fn overrun_is_a_hard_error() {
    let e = NbError::Other(Error::Overrun);
    assert_ne!(e, NbError::WouldBlock);
    assert!(matches!(e, NbError::Other(Error::Overrun)));
}
