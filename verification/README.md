# emusim

A retro console room simulator: wall outlets, a power strip, a CRT television
and Nintendo 64, PlayStation and PlayStation 2 consoles, joined by power and AV
cables, with emulation cores driven through libretro.

`src/` is the verified library. It holds the room's circuit graph (which
sockets are mated, which are live, what the television shows), the device
state machines, the controller and keyboard mappings, the libretro input,
environment and video-conversion rules, the emulator worker's command loop,
the on-screen font renderer and the command-line options, each with a
contract checked by Verus, and the laws that tie the operations together.

`app/` is the program around it: the libretro C interface, the worker
thread, audio synthesis, cable physics, VR input and the camera, which work
in floating point or with the operating system. `tests/` exercises the
library on concrete rooms.
