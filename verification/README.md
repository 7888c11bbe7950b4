# deepseek_harness_client

The decision and text logic of the DeepSeek Harness desktop launcher, verified
with Verus. The launcher finds (or installs) DeepSeek Harness, starts its local
web service on `127.0.0.1:3080`, and shows it in a window.

- `src/` — the verified library: path model and file probe (`paths`), the
  launcher's data directory and configuration (`config`), finding Node.js,
  npm and installations (`locate`), sources and names (`names`), PowerShell
  quoting and download output (`powershell`), the Node.js setup and npm
  installation state machines (`setup`, `install`), the service launch state
  machine and readiness wait (`launch`), service start/stop helpers and
  command-line handling (`service`), `netstat` reading (`netstat`), text and
  line utilities (`text`, `lines`), and cross-function properties (`laws`).
- `app/` — the window, tray, processes, files and environment, driving the
  library's state machines.
- `tests/` — tests of the library on concrete values.
