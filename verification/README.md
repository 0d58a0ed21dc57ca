# eprinty

A printer installation helper for office networks: it reads a printer
configuration (cities, areas, printers and a driver catalog), lists the
printers a computer has, installs a configured printer (a driverless IPP
queue on macOS; a driver package staged with pnputil, a TCP/IP port and a
queue, or a shared connection on Windows), deletes printers and prints a
test page.

The library in `src/` is written in Verus. The decisions of the tool are
functions with contracts that Verus proves: what a configuration means,
how a request is checked, which route an install takes, and, for each
install, unpacking and deletion, which step comes next given what the
previous one returned (`mac_install_flow`, `win_flow`, `win_infpath`,
`win_unpack`, `win_extract_zip`, `win_delete`). The work that touches the outside world
(running `lpadmin`, `lpstat`, `lp`, PowerShell, pnputil, `cscript`, HTTP
requests, files) lives in `app/`, a small command-line front end that
runs those step functions in a loop, performs each action the library asks
for and hands the answer back.

## Layout

- `src/text.rs`, `src/outside.rs`: strings as character sequences (trimming,
  searching, lines, numbers, UTF-8 byte lengths) and the few calls into
  `sha2`, `url`, `encoding_rs` and std that the library relies on.
- `src/config.rs`, `src/version.rs`, `src/commands.rs`: the configuration,
  its validation and comparison, version numbers, and the checks made on
  each request.
- `src/events.rs`: install progress events and the step reporter.
- `src/ipp.rs`, `src/macos.rs`, `src/macos_install.rs`, `src/macos_flow.rs`,
  `src/mac_install_flow.rs`, `src/test_page.rs`: CUPS and IPP on macOS,
  queue names, the driverless install and its steps, and the test page.
- `src/platform.rs`, `src/command.rs`, `src/powershell.rs`, `src/sysinfo.rs`:
  what all platforms share, running commands, and system information.
- `src/win_*.rs`, `src/setupapi.rs`: Windows — listing printers, resolving
  INF paths, fetching and unpacking driver packages (`win_fetch`,
  `win_unpack`, `win_extract_zip`, `win_bootstrap`), staging and
  registering drivers, ports, queues, the install routes (`win_route`,
  `win_flow`) and deletion (`win_delete`).
- `tests/`: tests of the library on concrete values.
- `app/`: the command-line front end.
