//! What holds of the scripts that are handed to other programs: they print what
//! is read.

use vstd::prelude::*;
use vstd::string::*;

use crate::framework::PYTORCH_PROBE;
use crate::laws::text::{holds, law_search};
use crate::text::{has_text, occurs_at};
use crate::windows::{WIN_DRIVER_SCRIPT, WIN_GPU_SCRIPT};
use crate::wsl::{WSL_PLATFORM_NOTE, WSL_REMOTE_PROBE};

verus! {

proof fn lemma_stands_at(s: Seq<char>, part: Seq<char>, i: int)
    requires
        0 <= i,
        i + part.len() <= s.len(),
        s.subrange(i, i + part.len()) == part,
    ensures
        holds(s, part),
{
    assert(occurs_at(s, part, i));
    assert(has_text(s, part));
    law_search(s, part);
}

/// The script on torch prints under each key what the report is read from.
pub proof fn law_torch_script_reports()
    ensures
        holds(PYTORCH_PROBE@, "import torch\n  out['ok']=True"@),
        holds(PYTORCH_PROBE@, "out['version']=torch.__version__"@),
        holds(PYTORCH_PROBE@, "out['hip']=getattr(torch.version,'hip',None)"@),
        holds(PYTORCH_PROBE@, "out['cuda']=getattr(torch.version,'cuda',None)"@),
        holds(PYTORCH_PROBE@, "out['is_available']=bool(torch.cuda.is_available())"@),
        holds(PYTORCH_PROBE@, "out['arch_list']=list(torch.cuda.get_arch_list())"@),
        holds(PYTORCH_PROBE@, "out['error']=type(ex).__name__+': '+str(ex)"@),
        holds(PYTORCH_PROBE@, "sys.stdout.write(json.dumps(out))"@),
{
    let script = PYTORCH_PROBE@;
    reveal_strlit(
        "import json,sys\nout={'ok':False}\ntry:\n  import torch\n  out['ok']=True\n  out['version']=torch.__version__\n  out['hip']=getattr(torch.version,'hip',None)\n  out['cuda']=getattr(torch.version,'cuda',None)\n  out['is_available']=bool(torch.cuda.is_available())\n  try: out['device_count']=int(torch.cuda.device_count())\n  except Exception: out['device_count']=0\n  try: out['arch_list']=list(torch.cuda.get_arch_list())\n  except Exception: out['arch_list']=[]\nexcept Exception as ex:\n  out['error']=type(ex).__name__+': '+str(ex)\nsys.stdout.write(json.dumps(out))\n",
    );
    assert(holds(script, "import torch\n  out['ok']=True"@)) by {
        reveal_strlit("import torch\n  out['ok']=True");
        assert(script.subrange(40, 69) =~= "import torch\n  out['ok']=True"@);
        lemma_stands_at(script, "import torch\n  out['ok']=True"@, 40);
    }
    assert(holds(script, "out['version']=torch.__version__"@)) by {
        reveal_strlit("out['version']=torch.__version__");
        assert(script.subrange(72, 104) =~= "out['version']=torch.__version__"@);
        lemma_stands_at(script, "out['version']=torch.__version__"@, 72);
    }
    assert(holds(script, "out['hip']=getattr(torch.version,'hip',None)"@)) by {
        reveal_strlit("out['hip']=getattr(torch.version,'hip',None)");
        assert(script.subrange(107, 151) =~= "out['hip']=getattr(torch.version,'hip',None)"@);
        lemma_stands_at(script, "out['hip']=getattr(torch.version,'hip',None)"@, 107);
    }
    assert(holds(script, "out['cuda']=getattr(torch.version,'cuda',None)"@)) by {
        reveal_strlit("out['cuda']=getattr(torch.version,'cuda',None)");
        assert(script.subrange(154, 200) =~= "out['cuda']=getattr(torch.version,'cuda',None)"@);
        lemma_stands_at(script, "out['cuda']=getattr(torch.version,'cuda',None)"@, 154);
    }
    assert(holds(script, "out['is_available']=bool(torch.cuda.is_available())"@)) by {
        reveal_strlit("out['is_available']=bool(torch.cuda.is_available())");
        assert(script.subrange(203, 254) =~= "out['is_available']=bool(torch.cuda.is_available())"@);
        lemma_stands_at(script, "out['is_available']=bool(torch.cuda.is_available())"@, 203);
    }
    assert(holds(script, "out['arch_list']=list(torch.cuda.get_arch_list())"@)) by {
        reveal_strlit("out['arch_list']=list(torch.cuda.get_arch_list())");
        assert(script.subrange(362, 411) =~= "out['arch_list']=list(torch.cuda.get_arch_list())"@);
        lemma_stands_at(script, "out['arch_list']=list(torch.cuda.get_arch_list())"@, 362);
    }
    assert(holds(script, "out['error']=type(ex).__name__+': '+str(ex)"@)) by {
        reveal_strlit("out['error']=type(ex).__name__+': '+str(ex)");
        assert(script.subrange(478, 521) =~= "out['error']=type(ex).__name__+': '+str(ex)"@);
        lemma_stands_at(script, "out['error']=type(ex).__name__+': '+str(ex)"@, 478);
    }
    assert(holds(script, "sys.stdout.write(json.dumps(out))"@)) by {
        reveal_strlit("sys.stdout.write(json.dumps(out))");
        assert(script.subrange(522, 555) =~= "sys.stdout.write(json.dumps(out))"@);
        lemma_stands_at(script, "sys.stdout.write(json.dumps(out))"@, 522);
    }
}

/// The script on display adapters lists those of both vendors, by id, by maker or
/// by name, and prints of each what a line of the inventory is read from, in that
/// order and between tabs.
pub proof fn law_inventory_script_lists()
    ensures
        holds(WIN_GPU_SCRIPT@, "Get-CimInstance Win32_VideoController"@),
        holds(WIN_GPU_SCRIPT@, "$_.PNPDeviceID -match 'VEN_1002'"@),
        holds(WIN_GPU_SCRIPT@, "$_.AdapterCompatibility -match 'AMD|Advanced Micro Devices'"@),
        holds(WIN_GPU_SCRIPT@, "$_.Name -match 'AMD|Radeon|Instinct'"@),
        holds(WIN_GPU_SCRIPT@, "$_.PNPDeviceID -match 'VEN_10DE'"@),
        holds(WIN_GPU_SCRIPT@, "$_.Name -match 'NVIDIA'"@),
        holds(WIN_GPU_SCRIPT@, r#"ForEach-Object { "$($_.Name)`t$($_.DriverVersion)`t$($_.PNPDeviceID)" }"#@),
{
    let script = WIN_GPU_SCRIPT@;
    reveal_strlit(
        "Get-CimInstance Win32_VideoController | Where-Object { $_.PNPDeviceID -match 'VEN_1002' -or $_.AdapterCompatibility -match 'AMD|Advanced Micro Devices' -or $_.Name -match 'AMD|Radeon|Instinct' -or $_.PNPDeviceID -match 'VEN_10DE' -or $_.Name -match 'NVIDIA' } | ForEach-Object { \"$($_.Name)`t$($_.DriverVersion)`t$($_.PNPDeviceID)\" }",
    );
    assert(holds(script, "Get-CimInstance Win32_VideoController"@)) by {
        reveal_strlit("Get-CimInstance Win32_VideoController");
        assert(script.subrange(0, 37) =~= "Get-CimInstance Win32_VideoController"@);
        lemma_stands_at(script, "Get-CimInstance Win32_VideoController"@, 0);
    }
    assert(holds(script, "$_.PNPDeviceID -match 'VEN_1002'"@)) by {
        reveal_strlit("$_.PNPDeviceID -match 'VEN_1002'");
        assert(script.subrange(55, 87) =~= "$_.PNPDeviceID -match 'VEN_1002'"@);
        lemma_stands_at(script, "$_.PNPDeviceID -match 'VEN_1002'"@, 55);
    }
    assert(holds(script, "$_.AdapterCompatibility -match 'AMD|Advanced Micro Devices'"@)) by {
        reveal_strlit("$_.AdapterCompatibility -match 'AMD|Advanced Micro Devices'");
        assert(script.subrange(92, 151) =~= "$_.AdapterCompatibility -match 'AMD|Advanced Micro Devices'"@);
        lemma_stands_at(script, "$_.AdapterCompatibility -match 'AMD|Advanced Micro Devices'"@, 92);
    }
    assert(holds(script, "$_.Name -match 'AMD|Radeon|Instinct'"@)) by {
        reveal_strlit("$_.Name -match 'AMD|Radeon|Instinct'");
        assert(script.subrange(156, 192) =~= "$_.Name -match 'AMD|Radeon|Instinct'"@);
        lemma_stands_at(script, "$_.Name -match 'AMD|Radeon|Instinct'"@, 156);
    }
    assert(holds(script, "$_.PNPDeviceID -match 'VEN_10DE'"@)) by {
        reveal_strlit("$_.PNPDeviceID -match 'VEN_10DE'");
        assert(script.subrange(197, 229) =~= "$_.PNPDeviceID -match 'VEN_10DE'"@);
        lemma_stands_at(script, "$_.PNPDeviceID -match 'VEN_10DE'"@, 197);
    }
    assert(holds(script, "$_.Name -match 'NVIDIA'"@)) by {
        reveal_strlit("$_.Name -match 'NVIDIA'");
        assert(script.subrange(234, 257) =~= "$_.Name -match 'NVIDIA'"@);
        lemma_stands_at(script, "$_.Name -match 'NVIDIA'"@, 234);
    }
    assert(holds(script, r#"ForEach-Object { "$($_.Name)`t$($_.DriverVersion)`t$($_.PNPDeviceID)" }"#@)) by {
        reveal_strlit(r#"ForEach-Object { "$($_.Name)`t$($_.DriverVersion)`t$($_.PNPDeviceID)" }"#);
        assert(script.subrange(262, 333) =~= r#"ForEach-Object { "$($_.Name)`t$($_.DriverVersion)`t$($_.PNPDeviceID)" }"#@);
        lemma_stands_at(script, r#"ForEach-Object { "$($_.Name)`t$($_.DriverVersion)`t$($_.PNPDeviceID)" }"#@, 262);
    }
}

/// The script on the display driver prints the version of the first adapter that is
/// AMD's, by its id or its name.
pub proof fn law_driver_script_asks_amd()
    ensures
        holds(WIN_DRIVER_SCRIPT@, "Get-CimInstance Win32_VideoController"@),
        holds(WIN_DRIVER_SCRIPT@, "$_.PNPDeviceID -match 'VEN_1002'"@),
        holds(WIN_DRIVER_SCRIPT@, "$_.Name -match 'AMD|Radeon|Instinct'"@),
        holds(WIN_DRIVER_SCRIPT@, "Select-Object -First 1).DriverVersion"@),
{
    let script = WIN_DRIVER_SCRIPT@;
    reveal_strlit(
        "(Get-CimInstance Win32_VideoController | Where-Object { $_.PNPDeviceID -match 'VEN_1002' -or $_.Name -match 'AMD|Radeon|Instinct' } | Select-Object -First 1).DriverVersion",
    );
    assert(holds(script, "Get-CimInstance Win32_VideoController"@)) by {
        reveal_strlit("Get-CimInstance Win32_VideoController");
        assert(script.subrange(1, 38) =~= "Get-CimInstance Win32_VideoController"@);
        lemma_stands_at(script, "Get-CimInstance Win32_VideoController"@, 1);
    }
    assert(holds(script, "$_.PNPDeviceID -match 'VEN_1002'"@)) by {
        reveal_strlit("$_.PNPDeviceID -match 'VEN_1002'");
        assert(script.subrange(56, 88) =~= "$_.PNPDeviceID -match 'VEN_1002'"@);
        lemma_stands_at(script, "$_.PNPDeviceID -match 'VEN_1002'"@, 56);
    }
    assert(holds(script, "$_.Name -match 'AMD|Radeon|Instinct'"@)) by {
        reveal_strlit("$_.Name -match 'AMD|Radeon|Instinct'");
        assert(script.subrange(93, 129) =~= "$_.Name -match 'AMD|Radeon|Instinct'"@);
        lemma_stands_at(script, "$_.Name -match 'AMD|Radeon|Instinct'"@, 93);
    }
    assert(holds(script, "Select-Object -First 1).DriverVersion"@)) by {
        reveal_strlit("Select-Object -First 1).DriverVersion");
        assert(script.subrange(134, 171) =~= "Select-Object -First 1).DriverVersion"@);
        lemma_stands_at(script, "Select-Object -First 1).DriverVersion"@, 134);
    }
}

/// The script that is run in a guest prints under each key what is read from it,
/// from the file or the program that tells.
#[verifier::rlimit(50)]
pub proof fn law_guest_script_tells()
    ensures
        holds(WSL_REMOTE_PROBE@, r#"echo "kernel=$(uname -r 2>/dev/null)""#@),
        holds(WSL_REMOTE_PROBE@, "if [ -e /dev/dxg ]; then echo dxg=1; else echo dxg=0; fi"@),
        holds(WSL_REMOTE_PROBE@, "if [ -e /usr/lib/wsl/lib/libdxcore.so ]; then echo dxcore=1; else echo dxcore=0; fi"@),
        holds(WSL_REMOTE_PROBE@, "if [ -d /usr/lib/wsl/lib ]; then echo wsllib=1; else echo wsllib=0; fi"@),
        holds(WSL_REMOTE_PROBE@, "if ls /opt/rocm*/lib/librocdxg.so >/dev/null 2>&1"@),
        holds(WSL_REMOTE_PROBE@, "|| ls /usr/local/rocm*/lib/librocdxg.so >/dev/null 2>&1; then echo librocdxg=1; else echo librocdxg=0; fi"@),
        holds(WSL_REMOTE_PROBE@, "if ls /opt/rocm*/share/rocdxg/dids.conf >/dev/null 2>&1"@),
        holds(WSL_REMOTE_PROBE@, "|| ls /usr/local/rocm*/share/rocdxg/dids.conf >/dev/null 2>&1; then echo dids=1; else echo dids=0; fi"@),
        holds(WSL_REMOTE_PROBE@, "for ldc in ldconfig /sbin/ldconfig /usr/sbin/ldconfig; do"@),
        holds(WSL_REMOTE_PROBE@, r#"if cache=$(command -v "$ldc" >/dev/null 2>&1 && "$ldc" -p 2>/dev/null); then"#@),
        holds(WSL_REMOTE_PROBE@, r#"case "$cache" in *librocdxg.so*) echo ldconfig=1 ;; *) echo ldconfig=0 ;; esac"#@),
        holds(WSL_REMOTE_PROBE@, "if command -v rocminfo >/dev/null 2>&1; then"@),
        holds(WSL_REMOTE_PROBE@, "echo rocminfo=1"@),
        holds(WSL_REMOTE_PROBE@, "echo rocminfo=0"@),
        holds(WSL_REMOTE_PROBE@, "if rocminfo 2>/dev/null | grep -qi gfx; then echo rocmgfx=1; else echo rocmgfx=0; fi"@),
        holds(WSL_REMOTE_PROBE@, ". /etc/os-release 2>/dev/null"@),
        holds(WSL_REMOTE_PROBE@, r#"echo "id=${ID}""#@),
        holds(WSL_REMOTE_PROBE@, r#"echo "version=${VERSION_ID}""#@),
{
    let script = WSL_REMOTE_PROBE@;
    reveal_strlit(
        r#"
echo "kernel=$(uname -r 2>/dev/null)"
if [ -e /dev/dxg ]; then echo dxg=1; else echo dxg=0; fi
if [ -e /usr/lib/wsl/lib/libdxcore.so ]; then echo dxcore=1; else echo dxcore=0; fi
if [ -d /usr/lib/wsl/lib ]; then echo wsllib=1; else echo wsllib=0; fi
if ls /opt/rocm*/lib/librocdxg.so >/dev/null 2>&1 \
  || ls /usr/local/rocm*/lib/librocdxg.so >/dev/null 2>&1; then echo librocdxg=1; else echo librocdxg=0; fi
if ls /opt/rocm*/share/rocdxg/dids.conf >/dev/null 2>&1 \
  || ls /usr/local/rocm*/share/rocdxg/dids.conf >/dev/null 2>&1; then echo dids=1; else echo dids=0; fi
for ldc in ldconfig /sbin/ldconfig /usr/sbin/ldconfig; do
  if cache=$(command -v "$ldc" >/dev/null 2>&1 && "$ldc" -p 2>/dev/null); then
    case "$cache" in *librocdxg.so*) echo ldconfig=1 ;; *) echo ldconfig=0 ;; esac
    break
  fi
done
if command -v rocminfo >/dev/null 2>&1; then
  echo rocminfo=1
  if rocminfo 2>/dev/null | grep -qi gfx; then echo rocmgfx=1; else echo rocmgfx=0; fi
else
  echo rocminfo=0
fi
. /etc/os-release 2>/dev/null
echo "id=${ID}"
echo "version=${VERSION_ID}"
"#,
    );
    assert(holds(script, r#"echo "kernel=$(uname -r 2>/dev/null)""#@)) by {
        reveal_strlit(r#"echo "kernel=$(uname -r 2>/dev/null)""#);
        assert(script.subrange(1, 38) =~= r#"echo "kernel=$(uname -r 2>/dev/null)""#@);
        lemma_stands_at(script, r#"echo "kernel=$(uname -r 2>/dev/null)""#@, 1);
    }
    assert(holds(script, "if [ -e /dev/dxg ]; then echo dxg=1; else echo dxg=0; fi"@)) by {
        reveal_strlit("if [ -e /dev/dxg ]; then echo dxg=1; else echo dxg=0; fi");
        assert(script.subrange(39, 95) =~= "if [ -e /dev/dxg ]; then echo dxg=1; else echo dxg=0; fi"@);
        lemma_stands_at(script, "if [ -e /dev/dxg ]; then echo dxg=1; else echo dxg=0; fi"@, 39);
    }
    assert(holds(script, "if [ -e /usr/lib/wsl/lib/libdxcore.so ]; then echo dxcore=1; else echo dxcore=0; fi"@)) by {
        reveal_strlit("if [ -e /usr/lib/wsl/lib/libdxcore.so ]; then echo dxcore=1; else echo dxcore=0; fi");
        assert(script.subrange(96, 179) =~= "if [ -e /usr/lib/wsl/lib/libdxcore.so ]; then echo dxcore=1; else echo dxcore=0; fi"@);
        lemma_stands_at(script, "if [ -e /usr/lib/wsl/lib/libdxcore.so ]; then echo dxcore=1; else echo dxcore=0; fi"@, 96);
    }
    assert(holds(script, "if [ -d /usr/lib/wsl/lib ]; then echo wsllib=1; else echo wsllib=0; fi"@)) by {
        reveal_strlit("if [ -d /usr/lib/wsl/lib ]; then echo wsllib=1; else echo wsllib=0; fi");
        assert(script.subrange(180, 250) =~= "if [ -d /usr/lib/wsl/lib ]; then echo wsllib=1; else echo wsllib=0; fi"@);
        lemma_stands_at(script, "if [ -d /usr/lib/wsl/lib ]; then echo wsllib=1; else echo wsllib=0; fi"@, 180);
    }
    assert(holds(script, "if ls /opt/rocm*/lib/librocdxg.so >/dev/null 2>&1"@)) by {
        reveal_strlit("if ls /opt/rocm*/lib/librocdxg.so >/dev/null 2>&1");
        assert(script.subrange(251, 300) =~= "if ls /opt/rocm*/lib/librocdxg.so >/dev/null 2>&1"@);
        lemma_stands_at(script, "if ls /opt/rocm*/lib/librocdxg.so >/dev/null 2>&1"@, 251);
    }
    assert(holds(script, "|| ls /usr/local/rocm*/lib/librocdxg.so >/dev/null 2>&1; then echo librocdxg=1; else echo librocdxg=0; fi"@)) by {
        reveal_strlit("|| ls /usr/local/rocm*/lib/librocdxg.so >/dev/null 2>&1; then echo librocdxg=1; else echo librocdxg=0; fi");
        assert(script.subrange(305, 410) =~= "|| ls /usr/local/rocm*/lib/librocdxg.so >/dev/null 2>&1; then echo librocdxg=1; else echo librocdxg=0; fi"@);
        lemma_stands_at(script, "|| ls /usr/local/rocm*/lib/librocdxg.so >/dev/null 2>&1; then echo librocdxg=1; else echo librocdxg=0; fi"@, 305);
    }
    assert(holds(script, "if ls /opt/rocm*/share/rocdxg/dids.conf >/dev/null 2>&1"@)) by {
        reveal_strlit("if ls /opt/rocm*/share/rocdxg/dids.conf >/dev/null 2>&1");
        assert(script.subrange(411, 466) =~= "if ls /opt/rocm*/share/rocdxg/dids.conf >/dev/null 2>&1"@);
        lemma_stands_at(script, "if ls /opt/rocm*/share/rocdxg/dids.conf >/dev/null 2>&1"@, 411);
    }
    assert(holds(script, "|| ls /usr/local/rocm*/share/rocdxg/dids.conf >/dev/null 2>&1; then echo dids=1; else echo dids=0; fi"@)) by {
        reveal_strlit("|| ls /usr/local/rocm*/share/rocdxg/dids.conf >/dev/null 2>&1; then echo dids=1; else echo dids=0; fi");
        assert(script.subrange(471, 572) =~= "|| ls /usr/local/rocm*/share/rocdxg/dids.conf >/dev/null 2>&1; then echo dids=1; else echo dids=0; fi"@);
        lemma_stands_at(script, "|| ls /usr/local/rocm*/share/rocdxg/dids.conf >/dev/null 2>&1; then echo dids=1; else echo dids=0; fi"@, 471);
    }
    assert(holds(script, "for ldc in ldconfig /sbin/ldconfig /usr/sbin/ldconfig; do"@)) by {
        reveal_strlit("for ldc in ldconfig /sbin/ldconfig /usr/sbin/ldconfig; do");
        assert(script.subrange(573, 630) =~= "for ldc in ldconfig /sbin/ldconfig /usr/sbin/ldconfig; do"@);
        lemma_stands_at(script, "for ldc in ldconfig /sbin/ldconfig /usr/sbin/ldconfig; do"@, 573);
    }
    assert(holds(script, r#"if cache=$(command -v "$ldc" >/dev/null 2>&1 && "$ldc" -p 2>/dev/null); then"#@)) by {
        reveal_strlit(r#"if cache=$(command -v "$ldc" >/dev/null 2>&1 && "$ldc" -p 2>/dev/null); then"#);
        assert(script.subrange(633, 709) =~= r#"if cache=$(command -v "$ldc" >/dev/null 2>&1 && "$ldc" -p 2>/dev/null); then"#@);
        lemma_stands_at(script, r#"if cache=$(command -v "$ldc" >/dev/null 2>&1 && "$ldc" -p 2>/dev/null); then"#@, 633);
    }
    assert(holds(script, r#"case "$cache" in *librocdxg.so*) echo ldconfig=1 ;; *) echo ldconfig=0 ;; esac"#@)) by {
        reveal_strlit(r#"case "$cache" in *librocdxg.so*) echo ldconfig=1 ;; *) echo ldconfig=0 ;; esac"#);
        assert(script.subrange(714, 792) =~= r#"case "$cache" in *librocdxg.so*) echo ldconfig=1 ;; *) echo ldconfig=0 ;; esac"#@);
        lemma_stands_at(script, r#"case "$cache" in *librocdxg.so*) echo ldconfig=1 ;; *) echo ldconfig=0 ;; esac"#@, 714);
    }
    assert(holds(script, "if command -v rocminfo >/dev/null 2>&1; then"@)) by {
        reveal_strlit("if command -v rocminfo >/dev/null 2>&1; then");
        assert(script.subrange(813, 857) =~= "if command -v rocminfo >/dev/null 2>&1; then"@);
        lemma_stands_at(script, "if command -v rocminfo >/dev/null 2>&1; then"@, 813);
    }
    assert(holds(script, "echo rocminfo=1"@)) by {
        reveal_strlit("echo rocminfo=1");
        assert(script.subrange(860, 875) =~= "echo rocminfo=1"@);
        lemma_stands_at(script, "echo rocminfo=1"@, 860);
    }
    assert(holds(script, "echo rocminfo=0"@)) by {
        reveal_strlit("echo rocminfo=0");
        assert(script.subrange(970, 985) =~= "echo rocminfo=0"@);
        lemma_stands_at(script, "echo rocminfo=0"@, 970);
    }
    assert(holds(script, "if rocminfo 2>/dev/null | grep -qi gfx; then echo rocmgfx=1; else echo rocmgfx=0; fi"@)) by {
        reveal_strlit("if rocminfo 2>/dev/null | grep -qi gfx; then echo rocmgfx=1; else echo rocmgfx=0; fi");
        assert(script.subrange(878, 962) =~= "if rocminfo 2>/dev/null | grep -qi gfx; then echo rocmgfx=1; else echo rocmgfx=0; fi"@);
        lemma_stands_at(script, "if rocminfo 2>/dev/null | grep -qi gfx; then echo rocmgfx=1; else echo rocmgfx=0; fi"@, 878);
    }
    assert(holds(script, ". /etc/os-release 2>/dev/null"@)) by {
        reveal_strlit(". /etc/os-release 2>/dev/null");
        assert(script.subrange(989, 1018) =~= ". /etc/os-release 2>/dev/null"@);
        lemma_stands_at(script, ". /etc/os-release 2>/dev/null"@, 989);
    }
    assert(holds(script, r#"echo "id=${ID}""#@)) by {
        reveal_strlit(r#"echo "id=${ID}""#);
        assert(script.subrange(1019, 1034) =~= r#"echo "id=${ID}""#@);
        lemma_stands_at(script, r#"echo "id=${ID}""#@, 1019);
    }
    assert(holds(script, r#"echo "version=${VERSION_ID}""#@)) by {
        reveal_strlit(r#"echo "version=${VERSION_ID}""#);
        assert(script.subrange(1035, 1063) =~= r#"echo "version=${VERSION_ID}""#@);
        lemma_stands_at(script, r#"echo "version=${VERSION_ID}""#@, 1035);
    }
}

/// The note on WSL says how the GPU is reached there, and what to run.
pub proof fn law_platform_note_guides()
    ensures
        holds(WSL_PLATFORM_NOTE@, "Detected WSL2."@),
        holds(WSL_PLATFORM_NOTE@, "/dev/dxg and the Windows host driver"@),
        holds(WSL_PLATFORM_NOTE@, "the bare-metal driver checks do not apply and are skipped"@),
        holds(WSL_PLATFORM_NOTE@, "Run `rocm diagnose`"@),
{
    let script = WSL_PLATFORM_NOTE@;
    reveal_strlit(
        "Detected WSL2. The GPU is reached through /dev/dxg and the Windows host driver, so the bare-metal driver checks do not apply and are skipped. Run `rocm diagnose` for the WSL-specific checks. Setup guide: https://rocm.docs.amd.com/projects/radeon-ryzen/en/latest/docs/install/installryz/wsl/howto_wsl.html",
    );
    assert(holds(script, "Detected WSL2."@)) by {
        reveal_strlit("Detected WSL2.");
        assert(script.subrange(0, 14) =~= "Detected WSL2."@);
        lemma_stands_at(script, "Detected WSL2."@, 0);
    }
    assert(holds(script, "/dev/dxg and the Windows host driver"@)) by {
        reveal_strlit("/dev/dxg and the Windows host driver");
        assert(script.subrange(42, 78) =~= "/dev/dxg and the Windows host driver"@);
        lemma_stands_at(script, "/dev/dxg and the Windows host driver"@, 42);
    }
    assert(holds(script, "the bare-metal driver checks do not apply and are skipped"@)) by {
        reveal_strlit("the bare-metal driver checks do not apply and are skipped");
        assert(script.subrange(83, 140) =~= "the bare-metal driver checks do not apply and are skipped"@);
        lemma_stands_at(script, "the bare-metal driver checks do not apply and are skipped"@, 83);
    }
    assert(holds(script, "Run `rocm diagnose`"@)) by {
        reveal_strlit("Run `rocm diagnose`");
        assert(script.subrange(142, 161) =~= "Run `rocm diagnose`"@);
        lemma_stands_at(script, "Run `rocm diagnose`"@, 142);
    }
}

} // verus!
