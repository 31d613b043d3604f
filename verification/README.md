# pydeno

The core of a Python-embeddable JavaScript sandbox: the rules by which values, commands,
deadlines and capabilities cross the boundary between a Python host and a V8 isolate,
written in Verus and proved against their contracts.

## Layout

- `src/` is the verified library. The engine and the interpreter are driven from outside:
  the library is told what was read or what came of an operation, and says what is done
  next. Engine handles, Python objects and callers are known to it by number, times are
  spans since one origin, and doubles are bit patterns.
  - values: `js_value`, `bigint`, `double`, `limits`, `text`, `time`, `wire`
  - conversions: `conversion` (to Python), `py_import` (from Python), `v8_import` and
    `v8_export` (from and to the engine), `round_trip`, `v8_round_trip`
  - the runtime thread: `core_state`, `jobs`, `dispatcher`, `commands`, `startup`,
    `termination`, `stats`, `stream`, `ops`, `loader`, `functions`, `binding`, `snapshot`,
    `engine`, `threads`
  - the host's side: `handle`, `proxies`, `runtime`, `config`, `error`, `reports`
- `tests/` runs the library on concrete values.
- `app/` is the Python extension module around the library: PyO3 classes, the isolate, the
  threads and the channels. It brings no inspector server: a configuration that asks for
  one is refused with an error, and no endpoints are reported, until a host provides one.

Laws that relate several operations are public proof functions named `law_...`, next to
the functions they speak of.
