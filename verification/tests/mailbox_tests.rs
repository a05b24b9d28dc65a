use salmiak::gpu::mailbox::{
    ARMMemory, ClockRate, FrameBuffer, MailboxPropertyBufferBuilder, MailboxResult, Size,
    CLOCK_UART, FIELD_COUNT_OFFSET, MAILBOX_SUCCESS, TAG_ALLOCATE_FRAME_BUFFER,
    TAG_GET_ARM_MEMORY, TAG_GET_BUFFER_DEPTH, TAG_GET_CLOCK_RATE, TAG_GET_PHYSICAL_SIZE,
    TAG_GET_PITCH, TAG_GET_PIXEL_ORDER, TAG_GET_VIRTUAL_OFFSET, TAG_GET_VIRTUAL_SIZE,
    TAG_SET_BUFFER_DEPTH, TAG_SET_CLOCK_RATE, TAG_SET_PHYSICAL_SIZE, TAG_SET_PIXEL_ORDER,
    TAG_SET_VIRTUAL_OFFSET, TAG_SET_VIRTUAL_SIZE,
};

// Results

#[test]
fn single_u32_result() {
    const DEPTH: u32 = 5;
    let mut res = MailboxPropertyBufferBuilder::new();
    res.get_buffer_depth();

    let fc = res.get_field_count() + FIELD_COUNT_OFFSET;
    // The firmware's part: the reply word and the success code.
    res.write_word(fc - 1, DEPTH);
    res.write_word(1, MAILBOX_SUCCESS);
    let vals = res.submit().unwrap();

    let depth = match vals[0] {
        MailboxResult::SingleU32 { first } => first,
        other => panic!("wrong result shape: {:?}", other),
    };
    assert_eq!(depth, DEPTH);
}

#[test]
fn size_result() {
    const WIDTH: u32 = 10;
    const HEIGHT: u32 = 20;
    let mut res = MailboxPropertyBufferBuilder::new();
    res.get_physical_size();

    let fc = res.get_field_count() + FIELD_COUNT_OFFSET;

    // Size is written on the last two fields
    res.write_word(fc - 2, WIDTH);
    res.write_word(fc - 1, HEIGHT);
    res.write_word(1, MAILBOX_SUCCESS);

    let vals = res.submit().unwrap();

    let size = match vals[0] {
        MailboxResult::Size { size } => size,
        other => panic!("wrong result shape: {:?}", other),
    };
    assert_eq!(size.width, WIDTH);
    assert_eq!(size.height, HEIGHT);
}

#[test]
fn point_result() {
    const X: u32 = 1000;
    const Y: u32 = 300;
    let mut res = MailboxPropertyBufferBuilder::new();
    res.get_virtual_offset();

    let fc = res.get_field_count() + FIELD_COUNT_OFFSET;

    res.write_word(fc - 2, X);
    res.write_word(fc - 1, Y);
    res.write_word(1, MAILBOX_SUCCESS);

    let vals = res.submit().unwrap();

    let point = match vals[0] {
        MailboxResult::Point { point } => point,
        other => panic!("wrong result shape: {:?}", other),
    };
    assert_eq!(point.x, X);
    assert_eq!(point.y, Y);
}

#[test]
fn clock_rate_result() {
    const ID: u32 = 5;
    const HZ: u32 = 1234;
    let mut res = MailboxPropertyBufferBuilder::new();
    res.get_clock_rate(ID);

    let fc = res.get_field_count() + FIELD_COUNT_OFFSET;
    res.write_word(fc - 1, HZ);
    res.write_word(1, MAILBOX_SUCCESS);

    let vals = res.submit().unwrap();

    let clock = match vals[0] {
        MailboxResult::ClockRate { clock_rate } => clock_rate,
        other => panic!("wrong result shape: {:?}", other),
    };
    assert_eq!(clock.id, ID);
    assert_eq!(clock.hz, HZ);
}

#[test]
fn framebuffer_result() {
    const POINTER: u32 = 12;
    const SIZE: u32 = 65;
    let mut res = MailboxPropertyBufferBuilder::new();
    res.allocate_framebuffer(true);

    let fc = res.get_field_count() + FIELD_COUNT_OFFSET;
    res.write_word(fc - 2, POINTER);
    res.write_word(fc - 1, SIZE);
    res.write_word(1, MAILBOX_SUCCESS);

    let vals = res.submit().unwrap();

    let framebuffer = match vals[0] {
        MailboxResult::FrameBuffer { frame_buffer } => frame_buffer,
        other => panic!("wrong result shape: {:?}", other),
    };
    assert_eq!(framebuffer.pointer, POINTER);
    assert_eq!(framebuffer.size, SIZE);
}

#[test]
fn arm_memory_result() {
    const BASE: u32 = 0;
    const SIZE: u32 = 0x2000_0000;
    let mut res = MailboxPropertyBufferBuilder::new();
    res.get_arm_memory();

    let fc = res.get_field_count() + FIELD_COUNT_OFFSET;
    res.write_word(fc - 2, BASE);
    res.write_word(fc - 1, SIZE);
    res.write_word(1, MAILBOX_SUCCESS);

    let vals = res.submit().unwrap();

    let mem = match vals[0] {
        MailboxResult::ARMMemory { arm_memory } => arm_memory,
        other => panic!("wrong result shape: {:?}", other),
    };
    assert_eq!(mem, ARMMemory::new(BASE as usize, SIZE as usize));
}

#[test]
fn failed_submit_yields_no_results() {
    // Without the firmware's success code in word 1 the submission fails.
    let mut res = MailboxPropertyBufferBuilder::new();
    res.get_buffer_depth();
    assert!(res.submit().is_none());
}

// Methods

#[test]
fn set_clock_rate() {
    let mut res = MailboxPropertyBufferBuilder::new();
    res.set_clock_rate(1, 2, 3, false);

    // expected field count
    // tag + req + reserved + max(req_vals, resp_vals)
    assert_eq!(res.get_field_count(), 6);

    assert_eq!(res.word(2), TAG_SET_CLOCK_RATE); // dest address
    assert_eq!(res.word(3), 12); // request length
    assert_eq!(res.word(4), 0); // reserved for something

    // arguments
    assert_eq!(res.word(5), 1);
    assert_eq!(res.word(6), 2);
    assert_eq!(res.word(7), 3);
}

#[test]
fn get_clock_rate() {
    let mut res = MailboxPropertyBufferBuilder::new();
    res.get_clock_rate(CLOCK_UART);

    // expected field count
    // tag + req + reserved + max(req_vals, resp_vals)
    assert_eq!(res.get_field_count(), 5);
    assert_eq!(res.word(2), TAG_GET_CLOCK_RATE); // dest address
    assert_eq!(res.word(3), 8); // request length
    assert_eq!(res.word(4), 0); // reserved for something

    // arguments
    assert_eq!(res.word(5), CLOCK_UART);
}

#[test]
fn set_physical_size() {
    let mut res = MailboxPropertyBufferBuilder::new();
    res.set_physical_size(100, 200, false);

    assert_eq!(res.get_field_count(), 5);
    assert_eq!(res.word(2), TAG_SET_PHYSICAL_SIZE); // dest address
    assert_eq!(res.word(3), 8); // request length
    assert_eq!(res.word(4), 0); // reserved for something

    // arguments
    assert_eq!(res.word(5), 100);
    assert_eq!(res.word(6), 200);
}

#[test]
fn get_physical_size() {
    let mut res = MailboxPropertyBufferBuilder::new();
    res.get_physical_size();

    assert_eq!(res.get_field_count(), 5);
    assert_eq!(res.word(2), TAG_GET_PHYSICAL_SIZE); // dest address
    assert_eq!(res.word(3), 8); // request length
    assert_eq!(res.word(4), 0); // reserved for something
}

#[test]
fn set_virtual_size() {
    let mut res = MailboxPropertyBufferBuilder::new();
    res.set_virtual_size(300, 400, false);

    assert_eq!(res.get_field_count(), 5);
    assert_eq!(res.word(2), TAG_SET_VIRTUAL_SIZE); // dest address
    assert_eq!(res.word(3), 8); // request length
    assert_eq!(res.word(4), 0); // reserved for something

    // arguments
    assert_eq!(res.word(5), 300);
    assert_eq!(res.word(6), 400);
}

#[test]
fn get_virtual_size() {
    let mut res = MailboxPropertyBufferBuilder::new();
    res.get_virtual_size();

    assert_eq!(res.get_field_count(), 5);
    assert_eq!(res.word(2), TAG_GET_VIRTUAL_SIZE); // dest address
    assert_eq!(res.word(3), 8); // request length
    assert_eq!(res.word(4), 0); // reserved for something
}

#[test]
fn set_virtual_offset() {
    let mut res = MailboxPropertyBufferBuilder::new();
    res.set_virtual_offset(10, 20, false);

    assert_eq!(res.get_field_count(), 5);
    assert_eq!(res.word(2), TAG_SET_VIRTUAL_OFFSET); // dest address
    assert_eq!(res.word(3), 8); // request length
    assert_eq!(res.word(4), 0); // reserved for something

    // arguments
    assert_eq!(res.word(5), 10);
    assert_eq!(res.word(6), 20);
}

#[test]
fn get_virtual_offset() {
    let mut res = MailboxPropertyBufferBuilder::new();
    res.get_virtual_offset();

    assert_eq!(res.get_field_count(), 5);
    assert_eq!(res.word(2), TAG_GET_VIRTUAL_OFFSET); // dest address
    assert_eq!(res.word(3), 8); // request length
    assert_eq!(res.word(4), 0); // reserved for something
}

#[test]
fn set_buffer_depth() {
    let mut res = MailboxPropertyBufferBuilder::new();
    res.set_buffer_depth(5, false);

    assert_eq!(res.get_field_count(), 4);
    assert_eq!(res.word(2), TAG_SET_BUFFER_DEPTH); // dest address
    assert_eq!(res.word(3), 4); // request length
    assert_eq!(res.word(4), 0); // reserved for something

    // arguments
    assert_eq!(res.word(5), 5);
}

#[test]
fn get_buffer_depth() {
    let mut res = MailboxPropertyBufferBuilder::new();
    res.get_buffer_depth();

    assert_eq!(res.get_field_count(), 4);
    assert_eq!(res.word(2), TAG_GET_BUFFER_DEPTH); // dest address
    assert_eq!(res.word(3), 4); // request length
    assert_eq!(res.word(4), 0); // reserved for something
}

#[test]
fn set_pixel_order() {
    let mut res = MailboxPropertyBufferBuilder::new();
    res.set_pixel_order(50, false);

    assert_eq!(res.get_field_count(), 4);
    assert_eq!(res.word(2), TAG_SET_PIXEL_ORDER); // dest address
    assert_eq!(res.word(3), 4); // request length
    assert_eq!(res.word(4), 0); // reserved for something

    // arguments
    assert_eq!(res.word(5), 50);
}

#[test]
fn get_pixel_order() {
    let mut res = MailboxPropertyBufferBuilder::new();
    res.get_pixel_order();

    assert_eq!(res.get_field_count(), 4);
    assert_eq!(res.word(2), TAG_GET_PIXEL_ORDER); // dest address
    assert_eq!(res.word(3), 4); // request length
    assert_eq!(res.word(4), 0); // reserved for something
}

#[test]
fn allocate_framebuffer() {
    let mut res = MailboxPropertyBufferBuilder::new();
    res.allocate_framebuffer(false);

    assert_eq!(res.get_field_count(), 5);
    assert_eq!(res.word(2), TAG_ALLOCATE_FRAME_BUFFER); // dest address
    assert_eq!(res.word(3), 8); // request length
    assert_eq!(res.word(4), 0); // reserved for something

    // the requested alignment, which the firmware overwrites
    assert_eq!(res.word(5), 4096);
}

#[test]
fn get_pitch() {
    let mut res = MailboxPropertyBufferBuilder::new();
    res.get_pitch();

    assert_eq!(res.get_field_count(), 4);
    assert_eq!(res.word(2), TAG_GET_PITCH); // dest address
    assert_eq!(res.word(3), 4); // request length
    assert_eq!(res.word(4), 0); // reserved for something
}

#[test]
fn get_arm_memory() {
    let mut res = MailboxPropertyBufferBuilder::new();
    res.get_arm_memory();

    assert_eq!(res.get_field_count(), 5);
    assert_eq!(res.word(2), TAG_GET_ARM_MEMORY); // dest address
    assert_eq!(res.word(3), 8); // request length
    assert_eq!(res.word(4), 0); // reserved for something
}

// Buffer shape on the wire

#[test]
fn sealed_header_and_terminator() {
    // One 8-byte tag: field count 7, so word 0 holds (7 + 1) * 4 = 32 and
    // word 7 the terminator; word 1 still marks a request.
    let mut res = MailboxPropertyBufferBuilder::new();
    res.get_clock_rate(CLOCK_UART);
    assert_eq!(res.word(1), 0);
    res.submit();
    assert_eq!(res.word(0), 32);
    assert_eq!(res.word(1), 0);
    assert_eq!(res.word(7), 0);
}

#[test]
fn get_clock_rate_uart_exchange() {
    // GET_CLOCK_RATE for the UART clock: words 2..7 on the wire are
    // [tag, 8, 0, 2, 0], then the terminator. A firmware writing 1234 into
    // word 6 yields {id: 2, hz: 1234}.
    let mut res = MailboxPropertyBufferBuilder::new();
    res.get_clock_rate(2);
    assert_eq!(res.word(2), 0x0003_0002);
    assert_eq!(res.word(3), 8);
    assert_eq!(res.word(4), 0);
    assert_eq!(res.word(5), 2);
    assert_eq!(res.word(6), 0);

    res.write_word(6, 1234);
    res.write_word(1, MAILBOX_SUCCESS);
    let vals = res.submit().unwrap();
    assert_eq!(res.word(7), 0);
    assert_eq!(res.word(0), 32);
    assert_eq!(
        vals[0],
        MailboxResult::ClockRate {
            clock_rate: ClockRate { id: 2, hz: 1234 }
        }
    );
}

#[test]
fn get_physical_size_exchange() {
    // GET_PHYSICAL_SIZE: a firmware writing 10 and 20 into words 5 and 6
    // yields {w: 10, h: 20}.
    let mut res = MailboxPropertyBufferBuilder::new();
    res.get_physical_size();
    res.write_word(5, 10);
    res.write_word(6, 20);
    res.write_word(1, MAILBOX_SUCCESS);
    let vals = res.submit().unwrap();
    assert_eq!(
        vals[0],
        MailboxResult::Size {
            size: Size {
                width: 10,
                height: 20
            }
        }
    );
}

#[test]
fn allocate_framebuffer_exchange() {
    // ALLOCATE_FRAME_BUFFER: word 5 carries the alignment 4096; a firmware
    // writing pointer and size yields {ptr: 0x1234_5678, size: 65}.
    let mut res = MailboxPropertyBufferBuilder::new();
    res.allocate_framebuffer(true);
    assert_eq!(res.word(5), 4096);
    res.write_word(5, 0x1234_5678);
    res.write_word(6, 65);
    res.write_word(1, MAILBOX_SUCCESS);
    let vals = res.submit().unwrap();
    assert_eq!(
        vals[0],
        MailboxResult::FrameBuffer {
            frame_buffer: FrameBuffer {
                pointer: 0x1234_5678,
                size: 65
            }
        }
    );
}

#[test]
fn batched_tags_in_order() {
    let mut res = MailboxPropertyBufferBuilder::new();
    res.set_clock_rate(2, 4_000_000, 0, true);
    res.get_arm_memory();
    assert_eq!(res.get_field_count(), 11);
    assert_eq!(res.word(2), TAG_SET_CLOCK_RATE);
    assert_eq!(res.word(8), TAG_GET_ARM_MEMORY);

    res.write_word(5, 2);
    res.write_word(6, 4_000_000);
    res.write_word(11, 0x100);
    res.write_word(12, 0x3000_0000);
    res.write_word(1, MAILBOX_SUCCESS);
    let vals = res.submit().unwrap();
    assert_eq!(vals.len(), 2);
    assert_eq!(
        vals[0],
        MailboxResult::ClockRate {
            clock_rate: ClockRate {
                id: 2,
                hz: 4_000_000
            }
        }
    );
    assert_eq!(
        vals[1],
        MailboxResult::ARMMemory {
            arm_memory: ARMMemory {
                base_address: 0x100,
                size: 0x3000_0000
            }
        }
    );
}
