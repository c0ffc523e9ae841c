# fskit_rs

The verified core of a bridge between macOS FSKit and user-space file systems.

`src/` is the library, verified with Verus:

- `info` reads the bundle identifier, server port and file-system type out of
  an extension's `Info.plist` (given as a `PlistValue`);
- `registration` reads PlugInKit's raw listing of an extension's
  registrations and decides which one is used and whether an application is
  active;
- `installer`, `mounter` and `session` hold the procedures that install,
  activate and uninstall the host application, mount and unmount a volume,
  and start a session. Each is a value whose `step` method takes the answer to
  the last piece of outside work (`Event`) and returns the next piece
  (`Effect`) or the outcome. Their transition functions (`*_next`) are the
  contracts. Most `law_*` proof functions state what holds of every single
  step; `law_mount_device_is_named` states an invariant that every step
  keeps, and `law_install_success_copies_and_activates` speaks of a whole run
  of an installation;
- `text`, `paths`, `pattern` and `command` are the text, path, regular
  expression and command helpers they use.

`app/` performs the outside work (processes, files, property lists, the
socket) and offers `install`, `activate`, `uninstall` and `mount` on top of
the procedures.
