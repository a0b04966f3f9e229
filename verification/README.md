# better_aim_assist

A virtual Xbox controller proxy for Windows: it reads a physical Xbox,
DualSense or DualShock 4 controller, hides it from games with HidHide, and
mirrors it to a ViGEm virtual Xbox 360 controller, making the left stick's x
axis jitter between its extremes while aim assist is switched on (F5) or L2
is held, and the stick is idle.

- `src/` is the verified library (Verus):
  - `report`: decoding of DualShock 4 / DualSense HID reports.
  - `gamepad`: the pad state and the jitter rule.
  - `polling`: decisions of the XInput and HID read loops, and the F5 toggle.
  - `controller`: controller kinds, the console choice, device and slot matching.
  - `host`: anti-cheat and game detection, driver plan, console title and events.
  - `hidhide`: the HidHide command lines that hide and restore the controller.
  - `json`: the HidHide device list: its text parsed (through serde_json) into plain
    JSON values, and the selection of the gaming devices to hide.
  - `layout`: the console frame's rows (text and style), banner and dashboard.
  - `text`: character-level helpers.
- `app/` is the Windows program around it: registry, processes, XInput,
  HID, ViGEm, keyboard, sound and console output.
- `tests/` runs the library on concrete inputs.
