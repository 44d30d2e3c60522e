use tuiba_core::memory::wait::{Access, WaitStates};

#[test]
fn power_on_defaults() {
    let w = WaitStates::default();
    assert!(!w.prefetch);
    assert_eq!(w.page(0x0000_0000), Access::fixed(1, 1), "BIOS");
    assert_eq!(
        w.page(0x0200_0000),
        Access {
            n16: 3,
            s16: 3,
            n32: 6,
            s32: 6
        },
        "EWRAM"
    );
    assert_eq!(w.page(0x0300_0000), Access::fixed(1, 1), "IWRAM");
    assert_eq!(w.page(0x0500_0000), Access::fixed(1, 2), "palette");
    assert_eq!(w.page(0x0600_0000), Access::fixed(1, 2), "VRAM");
    assert_eq!(w.page(0x0700_0000), Access::fixed(1, 1), "OAM");
    assert_eq!(
        w.page(0x0800_0000),
        Access {
            n16: 5,
            s16: 3,
            n32: 8,
            s32: 6
        },
        "WS0"
    );
    assert_eq!(
        w.page(0x0A00_0000),
        Access {
            n16: 5,
            s16: 5,
            n32: 10,
            s32: 10
        },
        "WS1"
    );
    assert_eq!(
        w.page(0x0C00_0000),
        Access {
            n16: 5,
            s16: 9,
            n32: 14,
            s32: 18
        },
        "WS2"
    );
    assert_eq!(w.page(0x0E00_0000), Access::fixed(5, 5), "SRAM");
    assert_eq!(w.page(0x0F00_0000), Access::fixed(5, 5), "SRAM mirror");
}

#[test]
fn decodes_the_usual_game_setting() {
    // SRAM 8 waits, WS0 3/1, WS1 4/4, WS2 8/8, prefetch on.
    let w = WaitStates::from_waitcnt(0x4317);
    assert!(w.prefetch);
    assert_eq!(w.page(0x0E00_0000).n16, 9);
    assert_eq!(
        w.page(0x0800_0000),
        Access {
            n16: 4,
            s16: 2,
            n32: 6,
            s32: 4
        }
    );
    assert_eq!(
        w.page(0x0900_0000),
        w.page(0x0800_0000),
        "upper half of WS0"
    );
    assert_eq!(
        w.page(0x0A00_0000),
        Access {
            n16: 5,
            s16: 5,
            n32: 10,
            s32: 10
        }
    );
    assert_eq!(
        w.page(0x0C00_0000),
        Access {
            n16: 9,
            s16: 9,
            n32: 18,
            s32: 18
        }
    );
}

#[test]
fn cycles_by_width_and_sequentiality() {
    let a = Access {
        n16: 5,
        s16: 3,
        n32: 8,
        s32: 6,
    };
    assert_eq!(a.cycles(1, false), 5);
    assert_eq!(a.cycles(2, true), 3);
    assert_eq!(a.cycles(4, false), 8);
    assert_eq!(a.cycles(4, true), 6);
}
