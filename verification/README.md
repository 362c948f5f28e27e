# zippery

The state and rules behind Zippery, a small desktop file manager.

`src/` is the verified library:

- `order`: comparison results and lexicographic comparison of strings;
- `paths`: the few path and character functions of the standard library the rules use;
- `time`: the `%Y-%m-%d %H:%M` text of an instant;
- `file`: directory entries, the order of the file list and its stable sort;
- `config`: the saved settings, the sort order and its header markers;
- `launch`: the launch mode read from the command line;
- `manager`: the file manager window as a state machine from messages to effects;
- `about`, `placeholder`: the other windows;
- `window`: routing of messages to windows;
- `desktop`: the set of open windows, the queue of windows asked for, and
  which window receives messages.

`app/` is the iced program around it: it reads the file system and the
settings, draws the windows, and carries out the effects the library asks
for, handing the results back as messages.
