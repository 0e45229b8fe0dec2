# Power plan manager

A window for the power plans of Windows: list, activate, rename, duplicate, import, export, delete,
bring back the default plans, and fetch the FPSHEAVEN plans.

`src/` is the library. It holds the logic, with contracts that Verus proves. It does nothing
to the machine: an operation returns what is to be done (`actions::Action`, `steps::Step`), and goes
on by the answer. So its contracts speak of every answer that Windows may give.

- `text`, `guid`, `regexes`, `descriptions`, `file_names`, `paths`: texts that Windows prints or takes.
- `plans`, `outcomes`, `status`: plans, results and the status line.
- `commands`, `actions`, `steps`: what is asked for.
- `load`, `duplicates`, `restore`, `fpsheaven`: operations of several commands.
- `model`, `manager`: the window as a state, and its operations.
- `restore_laws`, `fpsheaven_laws`, `manager_laws`: what holds of every run.

`app/` draws the window, runs the commands, shows the dialogs and touches the files.
