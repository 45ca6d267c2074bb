# slack_rs

A Slack real-time client. `src/` is the verified library (Verus): the data
model of a workspace, the ping frames and reports with their message-id
counter, the request parameters of the Web API calls, the decision taken on
each real-time event, and the rebuilding of the configuration text.
`app/` is the program around it: configuration file, HTTP requests,
the WebSocket, the async runtime, and serde copies of the library's types.

- `src/text.rs`: decimal writing of integers, proved to read back.
- `src/model/`: conversations, team, user, and `Workspace` with its laws.
- `src/api/`: query parameters and the `Authorization` header value.
- `src/rtm/`: what a real-time event asks for; the ping interval.
- `src/config/`: configuration text from its lines.
- `src/action.rs`: the actions that drive a workspace's loop.
