# relxen

The decision core of the RelXen trading dashboard, verified with Verus.

`src/` holds the dashboard's decision rules that do not rest on floating
point. Each function's contract states its result exactly, over spec
functions of plain values:

- the history window plan and its recovery;
- settings checks;
- live readiness, the execution gates and the full live status;
- order intents and their decimal sizing (through `rust_decimal`);
- the execution, flatten, cancel and cancel-all gates, each taken together
  in one step function (`action_gates`), with a flatten always cancelling
  the symbol's open orders before it submits;
- the auto executor's handling of a signal, which takes each closed-candle
  signal at most once (`auto_signal`);
- what a readiness refresh reads before the status is built
  (`readiness_flow`);
- the account shadow and its reconciliation;
- the kill switch and the arming controls;
- mainnet-auto dry runs, sessions and lesson reports;
- the runtime's reaction to stream events.

`app/` is the ordinary Rust around that core:

- the floating-point oscillator and paper-trading engine;
- the conversions between float-valued exchange snapshots and the core's
  decimal text;
- the clock;
- the asynchronous ports that exchange and keychain adapters implement;
- the live order actions, the auto signal step and the readiness refresh,
  which run the core's steps around those calls.

`tests/` runs the core on concrete values.
