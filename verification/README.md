# yumd

The logic of the yumD desktop dashboard, verified with Verus: which news page
is asked for and how its headlines become cards, the Twitch requests and login
state, the watched system files, and the per-second counters.

- `src/decimal.rs`: decimal rendering of page numbers, with its read-back law.
- `src/urls.rs`: endpoint addresses through the `url` crate (trusted wrappers).
- `src/news.rs`: the news response, articles, placeholders, and the headline request.
- `src/twitch.rs`: Twitch responses, tokens, and the token, user and follow requests.
- `src/sysinfo.rs`: the watched system files.
- `src/dashboard.rs`: the dashboard state and every change the widgets make to it.
- `app/`: the egui window, HTTP calls (reqwest), JSON (serde) and stored settings (confy).
