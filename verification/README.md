# scrabble

A terminal Scrabble game: a server deals tiles from the sack, seats a player
and answers the events that a client sends it over TCP as JSON.

- `src/` is the game's logic, verified with Verus: the sack and its letter
  distribution, the board, the players' hands, the board state and its turn
  order, the server's answers to client events, the reading of keys into
  events, and the framing of messages.
- `app/` is the program around it: the terminal, the keyboard task, the TCP
  connections, JSON, logging. `scrabble [host]` starts a client,
  `scrabble --server` the server.
- `tests/` runs the library on concrete games.
