# pico_kit

The decisions of a set of small Raspberry Pi Pico programs, verified with
Verus: PWM duty arithmetic (`pwm`), the LED dimming ramp (`dimming`), the
servo sweep (`servo`), a polled button-controlled blinker (`blink`), its
task-based variant (`tasks`), sensor rules and the RFID tag check
(`sensors`), the LCD crab glyph (`glyph`) and tick conversions made by
`embassy_time` (`timing`).

`app/` holds the programs themselves: it owns the peripherals, waits and
drives the pins, and asks the library what to do.
