# gadgetdeck

Emulates Elgato Stream Deck devices (Mini, Pedal, MK.2, XL, +, Neo) as Linux
USB gadgets. The library under `src/` is written in Verus: its functions carry
`requires`/`ensures` contracts that Verus proves, and `pub proof fn law_*`
items state properties that span several functions.

- `src/usb` – model descriptors, HID report descriptors and feature reports,
  answers to control requests, and the decisions of the report loops.
- `src/device` – button state and input reports, Stream Deck + touchscreen
  and knob state, Neo LEDs, and the reassembly of key images from output
  reports (`image_laws.rs` holds the laws of the reassembly).
- `src/display` – logic of the touchscreen front end: bitmap decoding,
  180-degree rotation, LCD canvases, key layout, gestures and per-frame input
  decisions.
- `src/server` – logic of the web front end: messages, responses, base64
  texts, the LCD segment store and the decisions of the REST API.
- `src/gadgetdeck.rs` – configuration, errors and initial device state.

`app/` is the program around the library (`gadgetdeck server` and
`gadgetdeck display`): USB gadget plumbing over FunctionFS, threads, the axum
web server, the Raylib display, and the JSON forms of the messages.
