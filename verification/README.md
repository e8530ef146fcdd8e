# ml_frontend

The frontend of a machine-learning platform: browse trained models, train
new ones (from a stored file or an uploaded CSV, with a chosen algorithm and
its parameters), train further versions, and run predictions.

- `src/` is the verified library. It holds the data model the backend
  serves, and every decision the page takes: which model an option selects,
  how an edited model is saved, what the algorithm selector records and
  hands out, what a training form submission is checked for and which
  fields it sends, how a training job is followed until it is over, the
  URLs of the backend, the message shown for a refused request, and the
  banner. Each public function states its result exactly; the `law_*`
  proof functions state the properties that span several calls.
- `app/` is the browser program (Yew): components, HTTP requests, timers,
  and the JSON shapes the backend sends. It hands plain values to the
  library and performs what the library decides.
- `tests/` runs the library on concrete values.
