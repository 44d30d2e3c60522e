# tuiba_core

A Game Boy Advance emulator core whose behaviour is stated in contracts and
proved by Verus.

The core knows nothing about terminals, windows or audio devices. A frontend
boots a cartridge with `Gba::new`, runs it a frame at a time with
`Gba::run_frame`, feeds it keys and the time of day, and reads back the
framebuffer, the sound samples and the save data.

## Layout

| Where        | What                                                                      |
| ------------ | ------------------------------------------------------------------------- |
| `src/cpu`    | the ARM7TDMI: register banks, ALU, ARM and THUMB instructions             |
| `src/memory` | the bus and what hangs off it: I/O, DMA, timers, save chips, clock        |
| `src/ppu`    | LCD timing, backgrounds, sprites, windows and blending                    |
| `src/apu`    | the sound unit                                                            |
| `src/bios`   | BIOS calls, serviced in software                                          |
| `src/state`  | save states                                                               |
| `src/patch.rs` | IPS, UPS and BPS patches                                                |
| `src/gba.rs` | the whole machine                                                         |
| `tests`      | ordinary tests of the compiled core                                       |
| `app`        | cartridges from disk, and errors with a wording for users                 |

## How it is specified

Every type has a mathematical view, and the view has a spec method for each
operation, so that the contract of an executable method reads "the new view is
what the spec method gives". The processor, the DMA controller and the BIOS
calls are generic over memory: their contracts speak of what the `Memory`
trait promises of an access, and the bus keeps those promises.

What holds across several operations stands in the `laws` modules and in the
proof functions whose names begin with `law_`: mode switches can be undone, what
was pushed is popped again, what is written to memory is read back at every
mirror, timers and the PPU do not care how time is cut into steps, an EEPROM
answers with what was written to it, a state file names exactly one machine, and
a machine that was restored runs on exactly as the one that was saved.

A few functions of the standard library and of `postcard` are trusted: sharing
a ROM image, appending to a string, and encoding and decoding the nested tuples
of plain values that a state file holds.
