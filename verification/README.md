# fanuc_web

Client-side logic of a web application that drives FANUC robots over RMI,
proved correct with Verus.

`src/` is the verified library:

- `client` – the state the client keeps from server events (`ClientState::apply`
  and the robot, socket and log handlers), with its laws;
- `packets` – names, sequence IDs and log lines of robot protocol packets;
- `console` – the bounded console and log panels;
- `messages` – the notices and log lines shown to the user;
- `hmi`, `hmi_sync` – I/O types, HMI widgets and panel layout, and the
  channel between the main window and popped-out HMI windows;
- `wizard`, `robot_settings`, `csv`, `composer`, `program_view`, `frame_tool` –
  the forms and panels: robot creation, robot and client settings, CSV upload
  preview, the command composer, the program panel and the frame and tool
  choice;
- `dto`, `robot_models`, `text` – data records, robot models, and decimal
  rendering and parsing.

`app/` is the unverified shell around it: the JSON wire format (serde), the
socket session that feeds server messages into `ClientState`, and the parts
that work on floating-point values.
