# fpui

A launcher for a fingerprint browser. The window lets the user fill in the
browser's options, stores them in `fpui.json` beside the executable, and
starts `chrome.exe` from the working directory with the matching command line.

- `src/` is the verified library: the settings model (`config`), the drop-down
  choices and how a stored value selects one (`options`), the command line and
  the checks before a launch (`launch`), the window's layout, colours and event
  rules (`ui`), and text helpers (`text`: trimming, decimal, UTF-16).
- `app/` is the Windows program around it: the native window, the settings
  file, and starting the browser.
- `tests/` exercises the library on concrete values.
