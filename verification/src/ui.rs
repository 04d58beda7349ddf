use vstd::prelude::*;

verus! {

/// The web page the desktop player shows. Its buttons send their `data-native-action`
/// through the IPC bridge (`window.ipc.postMessage`); the native host answers by calling the
/// page's `native*` functions with the scripts `desktop::player_step` produces.
pub const PLAYER_HTML: &'static str = r##"<!doctype html>
<html lang="en">
<head>
<meta charset="utf-8">
<meta name="viewport" content="width=device-width, initial-scale=1">
<title>SoundGIF</title>
<style>
  :root { color-scheme: dark; font-family: system-ui, sans-serif; }
  body { margin: 0; background: #15161a; color: #eceef2; height: 100vh; display: flex; flex-direction: column; }
  header { display: flex; align-items: center; gap: 8px; padding: 8px 12px; background: #1d1f25; user-select: none; }
  header .title { flex: 1; font-weight: 600; cursor: default; }
  header button { width: 34px; }
  main { flex: 1; display: flex; flex-direction: column; align-items: center; justify-content: center; gap: 16px; padding: 16px; }
  #stage { min-width: 320px; min-height: 240px; max-width: 90%; max-height: 60vh; display: flex; align-items: center; justify-content: center; border: 2px dashed #3a3e48; border-radius: 12px; }
  #stage.drag { border-color: #6aa8ff; background: #1b2433; }
  #stage img { max-width: 100%; max-height: 58vh; image-rendering: auto; }
  .row { display: flex; gap: 8px; flex-wrap: wrap; justify-content: center; }
  button { background: #2a2e37; color: inherit; border: 1px solid #3a3e48; border-radius: 8px; padding: 8px 14px; cursor: pointer; }
  button:hover { background: #343946; }
  button.selected { border-color: #6aa8ff; }
  #status { min-height: 1.4em; color: #aab0bc; text-align: center; }
  #status.error { color: #ff8a8a; }
</style>
</head>
<body>
<header>
  <span class="title" id="drag-region">SoundGIF</span>
  <button data-native-action="window:minimize" title="Minimize">&#8211;</button>
  <button data-native-action="window:toggle-maximize" title="Maximize">&#9633;</button>
  <button data-native-action="window:close" title="Close">&#215;</button>
</header>
<main>
  <div id="stage"><span id="placeholder">Drop a video or a SoundGIF here</span></div>
  <div class="row">
    <button data-native-action="pick-video">Convert a video</button>
    <button data-native-action="pick-gif">Open a SoundGIF</button>
    <button data-native-action="save" id="save" disabled>Save SoundGIF</button>
  </div>
  <div class="row" id="quality">
    <button data-native-action="quality:compact">Compact</button>
    <button data-native-action="quality:balanced" class="selected">Balanced</button>
    <button data-native-action="quality:high">High</button>
  </div>
  <div class="row">
    <button id="mute">Mute</button>
  </div>
  <div id="status"></div>
  <audio id="audio"></audio>
</main>
<script>
  "use strict";
  const stage = document.getElementById("stage");
  const statusLine = document.getElementById("status");
  const audio = document.getElementById("audio");
  const saveButton = document.getElementById("save");
  let audioUrl = null;

  function send(message) {
    window.ipc.postMessage(message);
  }

  document.querySelectorAll("[data-native-action]").forEach((element) => {
    element.addEventListener("click", () => {
      const message = element.getAttribute("data-native-action");
      if (message.startsWith("quality:")) {
        document.querySelectorAll("#quality button").forEach((b) => b.classList.toggle("selected", b === element));
      }
      send(message);
    });
  });
  document.getElementById("drag-region").addEventListener("mousedown", (event) => {
    if (event.button === 0) send("window:drag");
  });
  document.getElementById("mute").addEventListener("click", (event) => {
    audio.muted = !audio.muted;
    event.target.textContent = audio.muted ? "Unmute" : "Mute";
  });

  function setStatus(text, isError) {
    statusLine.textContent = text;
    statusLine.classList.toggle("error", Boolean(isError));
  }

  function fromBase64(text) {
    const raw = atob(text);
    const bytes = new Uint8Array(raw.length);
    for (let i = 0; i < raw.length; i++) bytes[i] = raw.charCodeAt(i);
    return bytes;
  }

  function concat(parts) {
    let length = 0;
    for (const part of parts) length += part.length;
    const out = new Uint8Array(length);
    let offset = 0;
    for (const part of parts) { out.set(part, offset); offset += part.length; }
    return out;
  }

  function tableLength(packed) {
    return (packed & 0x80) ? 3 << ((packed & 0x07) + 1) : 0;
  }

  // The data of the first SoundGIF application extension, or null.
  function soundData(b) {
    if (b.length < 14) return null;
    let c = 13 + tableLength(b[10]);
    const skip = (at) => {
      while (at < b.length) {
        const n = b[at++];
        if (n === 0) return at;
        at += n;
      }
      return -1;
    };
    while (c >= 0 && c < b.length) {
      const marker = b[c];
      if (marker === 0x3b) return null;
      if (marker === 0x2c) {
        c += 10 + tableLength(b[c + 9]) + 1;
        c = skip(c);
      } else if (marker === 0x21) {
        const label = b[c + 1];
        c += 2;
        let sound = false;
        if (label === 0xff) {
          const n = b[c];
          const header = String.fromCharCode(...b.subarray(c + 1, c + 1 + n));
          c += 1 + n;
          sound = n === 11 && header === "SNDGIF01001";
        }
        const parts = [];
        while (c < b.length) {
          const n = b[c++];
          if (n === 0) break;
          parts.push(b.subarray(c, c + n));
          c += n;
        }
        if (sound) return concat(parts);
      } else {
        return null;
      }
    }
    return null;
  }

  function decodePayload(d) {
    if (d.length < 26) return null;
    if (String.fromCharCode(d[0], d[1], d[2], d[3]) !== "SGA1" || d[4] !== 1) return null;
    const view = new DataView(d.buffer, d.byteOffset, d.length);
    const startMs = view.getUint32(6, true);
    const audioLength = Number(view.getBigUint64(10, true));
    const mimeLength = view.getUint16(22, true);
    const nameLength = view.getUint16(24, true);
    const metadataEnd = 26 + mimeLength + nameLength;
    if (metadataEnd + audioLength !== d.length) return null;
    const text = new TextDecoder();
    return {
      loop: (d[5] & 1) !== 0,
      startMs,
      mime: text.decode(d.subarray(26, 26 + mimeLength)),
      name: text.decode(d.subarray(26 + mimeLength, metadataEnd)),
      audio: d.subarray(metadataEnd),
    };
  }

  function nativeDragActive(active) {
    stage.classList.toggle("drag", active);
  }

  function nativePickerCancelled() {
    setStatus("");
  }

  function nativeConversionStarted(label) {
    setStatus("Converting " + label + " …");
  }

  function nativeFileLoading(label) {
    setStatus("Opening " + label + " …");
  }

  function nativeSoundGifReady(encoded, name, created) {
    const bytes = fromBase64(encoded);
    const image = document.createElement("img");
    image.alt = name;
    image.src = "data:image/gif;base64," + encoded;
    stage.replaceChildren(image);
    saveButton.disabled = false;
    if (audioUrl) URL.revokeObjectURL(audioUrl);
    audioUrl = null;
    audio.pause();
    const data = soundData(bytes);
    const payload = data && decodePayload(data);
    if (!payload) {
      audio.removeAttribute("src");
      setStatus(name + " holds no SoundGIF audio.");
      return;
    }
    audioUrl = URL.createObjectURL(new Blob([payload.audio], { type: payload.mime }));
    audio.src = audioUrl;
    audio.loop = payload.loop;
    audio.addEventListener("loadedmetadata", () => {
      audio.currentTime = payload.startMs / 1000;
      audio.play().catch(() => {});
    }, { once: true });
    setStatus((created ? "Created " : "Opened ") + name + " (" + payload.mime + ").");
  }

  function nativeOperationFailed(message) {
    setStatus(message, true);
  }

  function nativeSaveComplete(path) {
    setStatus("Saved " + path + ".");
  }
</script>
</body>
</html>
"##;

} // verus!
