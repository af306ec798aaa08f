//! The fixed parts of the setup page, in the order in which they stand in it.

use vstd::prelude::*;

verus! {

/// Up to the saved text in the script.
pub const PAGE_HEAD: &'static str = r#"<!DOCTYPE html>
<html>
  <head>
    <title>Traffic Light Setup</title>
    <meta name="viewport" content="width=device-width, initial-scale=1" />
    <style>
      body { font-family: 'Segoe UI', Tahoma, Geneva, Verdana, sans-serif; background:#f4f4f9; margin:0; padding:20px; }
      .container { background:#fff; padding:24px; border-radius:10px; box-shadow:0 4px 6px rgba(0,0,0,.1); max-width:440px; margin:0 auto 20px; box-sizing:border-box; }
      h2 { margin-top:0; color:#333; }
      h3 { color:#333; border-bottom:1px solid #eee; padding-bottom:6px; }
      .form-group { text-align:left; margin-bottom:15px; }
      label { display:block; margin-bottom:5px; color:#666; font-weight:bold; }
      select, input[type="text"], input[type="password"], input[type="number"] { width:100%; padding:10px; border:1px solid #ccc; border-radius:5px; box-sizing:border-box; font-size:16px; }
      button { background:#007bff; color:#fff; border:none; padding:12px 20px; font-size:16px; border-radius:5px; cursor:pointer; width:100%; margin-top:10px; }
      button:hover { background:#0056b3; }
      .status { padding:10px; border-radius:5px; margin-bottom:15px; font-weight:bold; }
      .status.idle { background:#e9ecef; color:#495057; }
      .status.testing { background:#fff3cd; color:#856404; }
      .status.success { background:#d4edda; color:#155724; }
      .status.failed { background:#f8d7da; color:#721c24; }
      .hint { font-weight:normal; color:#888; font-size:13px; }
    </style>
    <script>
      document.cookie.split(";").forEach(function(c) {
        document.cookie = c.replace(/^ +/, "").replace(/=.*/, "=;expires=" + new Date().toUTCString() + ";path=/");
      });

      // Snapshot of the marquee config as first rendered, so we can tell whether
      // anything changed when the user asks to reboot.
      var SAVED = {
        mq_text: "#;

/// Up to the saved delay.
pub const PAGE_SAVED_SPEED: &'static str = r#",
        mq_speed_ms: ""#;

/// Up to the saved orientation.
pub const PAGE_SAVED_ORIENT: &'static str = r#"",
        mq_orient: ""#;

/// Up to the saved direction.
pub const PAGE_SAVED_DIR: &'static str = r#"",
        mq_dir: ""#;

/// Up to the saved margin.
pub const PAGE_SAVED_MARGIN: &'static str = r#"",
        panel_margin: ""#;

/// Up to whether the saved margin applies to streams.
pub const PAGE_SAVED_STREAMS: &'static str = r#"",
        margin_streams: ""#;

/// Up to the saved port.
pub const PAGE_SAVED_PORT: &'static str = r#"",
        listen_port: ""#;

/// Up to the orientation code.
pub const PAGE_SCRIPT: &'static str = r#""
      };

      function post(path, data) {
        var body = Object.keys(data).map(function(k) {
          return encodeURIComponent(k) + "=" + encodeURIComponent(data[k]);
        }).join("&");
        return fetch(path, { method:"POST", headers:{"Content-Type":"application/x-www-form-urlencoded"}, body:body });
      }

"#;

/// How the script makes an orientation code of the two choices of the mount.
pub const PAGE_ORIENT_CODE: &'static str = r#"      // current orientation code from the two selects
      function orientCode() {
        var vertical = document.getElementById("mq_layout").value === "1";
        var inverted = document.getElementById("mq_flip").value === "1";
        if (!vertical && !inverted) return "0";
        if (!vertical && inverted)  return "2";
        if (vertical && !inverted)  return "1";
        return "3";
      }

"#;

/// Up to what the script says of a reboot.
pub const PAGE_ACTIONS: &'static str = r#"      function marqueeData() {
        return {
          mq_text: document.getElementById("mq_text").value,
          mq_speed_ms: document.getElementById("mq_speed_ms").value,
          mq_orient: orientCode(),
          mq_dir: document.getElementById("mq_dir").value,
          panel_margin: document.getElementById("panel_margin").value,
          margin_streams: document.getElementById("margin_streams").checked ? "1" : "0"
        };
      }

      // live preview: push marquee config to the device on any change (no save)
      function preview() { post("/preview", marqueeData()); }

      // swap the direction choices to match the chosen orientation
      var DIRS = {
        horizontal: [["1","Right to left"],["0","Left to right"]],
        vertical:   [["2","Top to bottom"],["3","Bottom to top"]]
      };
      function refreshDirections() {
        var vertical = document.getElementById("mq_layout").value === "1";
        var opts = vertical ? DIRS.vertical : DIRS.horizontal;
        var sel = document.getElementById("mq_dir");
        var prev = sel.value;
        sel.innerHTML = "";
        opts.forEach(function(pair) {
          var opt = document.createElement("option");
          opt.value = pair[0]; opt.textContent = pair[1];
          if (pair[0] === prev) opt.selected = true;
          sel.appendChild(opt);
        });
        preview();
      }

      // whether the marquee form differs from the last-saved snapshot
      function marqueeChanged() {
        var d = marqueeData();
        d.listen_port = document.getElementById("listen_port").value;
        return d.mq_text !== SAVED.mq_text
            || d.mq_speed_ms !== SAVED.mq_speed_ms
            || d.mq_orient !== SAVED.mq_orient
            || d.mq_dir !== SAVED.mq_dir
            || d.panel_margin !== SAVED.panel_margin
            || d.margin_streams !== SAVED.margin_streams
            || d.listen_port !== SAVED.listen_port;
      }

      // Firmware goes up as the raw file, not multipart: the device reads the
      // body straight into flash, and the same endpoint then works from a
      // shell with `curl --data-binary @app.bin`. XMLHttpRequest rather than
      // fetch() because only XHR reports upload progress, and a megabyte over
      // wifi is long enough that a progress bar is the difference between
      // "working" and "hung".
      function uploadFirmware() {
        var f = document.getElementById("fw").files[0];
        var box = document.getElementById("fw_status");
        if (!f) { alert("Choose a .bin first."); return; }
        if (!confirm("Upload " + f.name + " (" + Math.round(f.size / 1024) + " KB) and reboot into it?")) return;
        var xhr = new XMLHttpRequest();
        xhr.open("POST", "/ota", true);
        xhr.setRequestHeader("Content-Type", "application/octet-stream");
        xhr.upload.onprogress = function(e) {
          if (!e.lengthComputable) return;
          box.className = "status testing";
          box.textContent = "Uploading " + Math.floor(100 * e.loaded / e.total) + "% - watch the lamps.";
        };
        xhr.onload = function() {
          if (xhr.status === 200) {
            box.className = "status success";
            box.textContent = "Written. Rebooting into it; this page will come back in a few seconds.";
            setTimeout(function() { location.reload(); }, 15000);
          } else {
            box.className = "status failed";
            box.textContent = "Refused (" + xhr.status + "): " + xhr.responseText;
          }
        };
        xhr.onerror = function() {
          box.className = "status failed";
          box.textContent = "The connection dropped during the upload. Nothing was changed.";
        };
        xhr.send(f);
      }

      // The portal password is saved on its own rather than through the reboot
      // path: it takes effect on the next request, so there is nothing to
      // reboot for, and bundling a secret into the marquee payload would mean
      // re-sending it on every unrelated save.
      function savePortalAuth() {
        var pass = document.getElementById("portal_pass").value;
        if (!pass) { alert("Enter a new password first."); return; }
        var user = document.getElementById("portal_user").value;
        post("/save", { portal_user: user, portal_pass: pass }).then(function() {
          alert("Password set. The browser will ask for it on the next page load.");
          location.reload();
        });
      }

      function clearPortalAuth() {
        if (!confirm("Remove the portal password? Anyone on this network will then be able to reconfigure and reflash this light.")) return;
        post("/save", { portal_clear: "1" }).then(function() { location.reload(); });
      }

      // Single action: reboot. If the marquee settings or a wifi network changed,
      // offer to save first; otherwise just confirm the reboot.
      function doReboot() {
        var ssid = document.getElementById("ssid").value;
        var changed = marqueeChanged() || ssid;
        if (changed) {
          if (!confirm("You have unsaved changes. Save them and reboot now?")) return;
          var d = marqueeData();
          d.listen_port = document.getElementById("listen_port").value;
          if (ssid) { d.ssid = ssid; d.password = document.getElementById("password").value; }
          post("/save", d).then(function(r) { return r.text(); }).then(function(t) {
            if (t === "saved-testing") {
              // a wifi test was queued; show progress instead of rebooting
              pollStatus();
            } else {
              post("/reboot", {});
            }
          });
        } else {
          if (!confirm("Reboot now? "#;

/// The rest of the script, and the body up to the notes.
pub const PAGE_BODY: &'static str = r#"")) return;
          post("/reboot", {});
        }
      }

      // after a wifi save, poll /status; the AP drops briefly during the test,
      // so we tolerate fetch errors and keep trying, then reload to show result.
      function pollStatus() {
        var tries = 0;
        var box = document.getElementById("wifi_status");
        box.className = "status testing";
        box.textContent = "Testing connection... (your device may briefly disconnect)";
        var iv = setInterval(function() {
          tries++;
          fetch("/status").then(function(r) { return r.text(); }).then(function(t) {
            if (t === "success" || t === "failed") {
              clearInterval(iv);
              location.reload();
            }
          }).catch(function() { /* AP down mid-test; keep waiting */ });
          if (tries > 40) { clearInterval(iv); location.reload(); } // ~20s cap
        }, 500);
      }

      window.addEventListener("DOMContentLoaded", refreshDirections);
    </script>
  </head>
  <body>
    <div class="container">
      <h2>Traffic Light Setup</h2>
      "#;

/// Between the two notes.
pub const PAGE_BETWEEN_NOTES: &'static str = r#"
      "#;

/// Up to the class of the network status.
pub const PAGE_WIFI: &'static str = r#"

      <h3>Wi-Fi</h3>
      <div id="wifi_status" class="status "#;

/// Up to the list of networks.
pub const PAGE_NETWORKS: &'static str = r#"</div>
      <div class="form-group">
        <label>Network (SSID) <span class="hint">(leave as "keep current" to not change it)</span></label>
        <select id="ssid">"#;

/// Up to the length limit in the hint on the text.
pub const PAGE_TEXT_HINT: &'static str = r#"</select>
      </div>
      <div class="form-group">
        <label>Password <span class="hint">(only used when changing network)</span></label>
        <input type="password" id="password" />
      </div>

      <h3>Marquee</h3>
      <div class="form-group">
        <label>Text <span class="hint">(max "#;

/// Up to the length limit of the text.
pub const PAGE_TEXT: &'static str = r#" characters)</span></label>
        <input type="text" id="mq_text" maxlength=""#;

/// Up to the range in the hint on the delay.
pub const PAGE_SPEED_HINT: &'static str = r#"" oninput="preview()" />
      </div>
      <div class="form-group">
        <label>Step delay <span class="hint">(milliseconds per pixel; "#;

/// Up to the range of the delay.
pub const PAGE_SPEED: &'static str = r#", lower is faster)</span></label>
        <input type="number" id="mq_speed_ms" min=""#;

/// Up to the horizontal layout.
pub const PAGE_HORIZONTAL: &'static str = r#"" oninput="preview()" />
      </div>
      <div class="form-group">
        <label>Layout</label>
        <select id="mq_layout" onchange="refreshDirections()">
          <option value="0" "#;

/// Up to the vertical layout.
pub const PAGE_VERTICAL: &'static str = r#">Horizontal</option>
          <option value="1" "#;

/// Up to the upright mount.
pub const PAGE_UPRIGHT: &'static str = r#">Vertical</option>
        </select>
      </div>
      <div class="form-group">
        <label>Flip</label>
        <select id="mq_flip" onchange="preview()">
          <option value="0" "#;

/// Up to the inverted mount.
pub const PAGE_INVERTED: &'static str = r#">Upright</option>
          <option value="1" "#;

/// Up to the list of directions.
pub const PAGE_DIRECTIONS: &'static str = r#">Inverted</option>
        </select>
      </div>
      <div class="form-group">
        <label>Scroll direction</label>
        <select id="mq_dir" onchange="preview()">"#;

/// Up to the limit in the hint on the margin.
pub const PAGE_MARGIN_HINT: &'static str = r#"</select>
      </div>
      <div class="form-group">
        <label>Panel margin <span class="hint">(dead pixels between the 3 lamps; 0&ndash;"#;

/// Up to the limit of the margin.
pub const PAGE_MARGIN: &'static str = r#")</span></label>
        <input type="number" id="panel_margin" min="0" max=""#;

/// Up to whether the margin applies to streams.
pub const PAGE_STREAMS: &'static str = r#"" oninput="preview()" />
      </div>
      <div class="form-group">
        <label style="font-weight:normal;">
          <input type="checkbox" id="margin_streams" "#;

/// Up to the port.
pub const PAGE_PORT: &'static str = r#" onchange="preview()" style="width:auto;" />
          Apply panel margin to incoming streams
        </label>
        <span class="hint">If on, streamed frames must include the gap pixels (they'll be dropped). If off, streams fill all 30&times;10 as one contiguous area.</span>
      </div>
      <div class="form-group">
        <label>Listening port <span class="hint">(applies after reboot)</span></label>
        <input type="number" id="listen_port" min="1" max="65535" value=""#;

/// Up to the username.
pub const PAGE_ACCESS: &'static str = r#"" />
      </div>

      <h3>Portal access</h3>
      <div class="form-group">
        <label>Username</label>
        <input type="text" id="portal_user" value=""#;

/// Up to the running version.
pub const PAGE_FIRMWARE: &'static str = r#"" />
      </div>
      <div class="form-group">
        <label>New password <span class="hint">(leave blank to keep the current one)</span></label>
        <input type="password" id="portal_pass" />
      </div>
      <button onclick="savePortalAuth()">Set portal password</button>
      <button onclick="clearPortalAuth()">Remove password</button>

      <h3>Firmware</h3>
      <div class="form-group">
        <label>Running <span class="hint">(version, and which of the two slots it booted from)</span></label>
        <div>"#;

/// Up to the upload control.
pub const PAGE_UPLOAD: &'static str = r#"</div>
      </div>
      "#;

/// After the upload control.
pub const PAGE_END: &'static str = r#"

      <button onclick="doReboot()">Reboot</button>
    </div>
  </body>
</html>"#;

} // verus!
